//! Keeping the stored copy of the remote document up to date without
//! needless transfers.
//!
//! The decisions are a state machine: the caller performs each action that
//! [`Synchronizer::step`] hands back (a read, a download, a write) and feeds
//! back what came of it.
use vstd::prelude::*;

use crate::codec::text_field;
use crate::error::{ListError, MetadataField};
use crate::text::push_char;
use crate::json::{json_as_str, json_field, json_parse, parsed_json, Json};

verus! {

/// A moment in UTC: whole seconds since the Unix epoch and the nanoseconds
/// past them (a leap second carries the nanoseconds past one billion).
#[derive(Clone, Copy, Debug, PartialEq, Eq, Structural)]
pub struct Timestamp {
    pub seconds: i64,
    pub nanos: u32,
}

/// Whether `a` is not later than `b`.
pub open spec fn not_after(a: Timestamp, b: Timestamp) -> bool {
    a.seconds < b.seconds || (a.seconds == b.seconds && a.nanos <= b.nanos)
}

impl Timestamp {
    /// Whether this moment is not later than `other`.
    pub fn is_not_after(&self, other: &Timestamp) -> (r: bool)
        ensures
            r == not_after(*self, *other),
    {
        self.seconds < other.seconds || (self.seconds == other.seconds && self.nanos <= other.nanos)
    }
}

/// chrono's parse error, only passed through.
#[verifier::external_type_specification]
#[verifier::external_body]
pub struct ExChronoParseError(chrono::ParseError);

/// The seconds and nanoseconds since the Unix epoch that chrono reads from a
/// text with a format, taken as UTC.
pub uninterp spec fn parsed_utc(s: Seq<char>, fmt: Seq<char>) -> Option<(i64, u32)>;

/// The lower-case hexadecimal MD5 digest of the UTF-8 bytes of a text.
pub uninterp spec fn md5_hex(s: Seq<char>) -> Seq<char>;

/// Relies on chrono's `NaiveDateTime::parse_from_str`, with the result read
/// as UTC by `and_utc`, `timestamp` and `timestamp_subsec_nanos`.
#[verifier::external_body]
fn parse_utc(s: &str, fmt: &str) -> (r: Result<(i64, u32), chrono::ParseError>)
    ensures
        r is Ok <==> parsed_utc(s@, fmt@) is Some,
        r is Ok ==> parsed_utc(s@, fmt@) == Some(r->Ok_0),
{
    let t = chrono::NaiveDateTime::parse_from_str(s, fmt)?.and_utc();
    Ok((t.timestamp(), t.timestamp_subsec_nanos()))
}

/// Relies on `md5::compute` and the digest's lower-case hexadecimal form.
#[verifier::external_body]
fn md5_hex_of(s: &str) -> (r: String)
    ensures
        r@ == md5_hex(s@),
{
    format!("{:x}", md5::compute(s))
}

/// The format of the remote store's modification times.
pub const REMOTE_TIME_FORMAT: &'static str = "%FT%TZ";

/// The text of the `client_modified` field of a metadata response.
pub open spec fn client_modified_of(j: Json) -> Option<Seq<char>> {
    match j {
        Json::Object(o) => text_field(o, "client_modified"@),
        _ => None,
    }
}

/// The modification time that a remote metadata response gives.
pub open spec fn remote_time_of(response: Seq<char>) -> Result<Timestamp, ListError> {
    match parsed_json(response) {
        None => Err(ListError::Parse),
        Some(j) => match client_modified_of(j) {
            None => Err(ListError::MissingField { field: MetadataField::ClientModified }),
            Some(t) => match parsed_utc(t, REMOTE_TIME_FORMAT@) {
                None => Err(ListError::Timestamp),
                Some((seconds, nanos)) => Ok(Timestamp { seconds, nanos }),
            },
        },
    }
}

/// Reads the modification time out of a remote metadata response.
pub fn remote_modified_time(response: &str) -> (r: Result<Timestamp, ListError>)
    ensures
        r == remote_time_of(response@),
{
    let v = match json_parse(response) {
        Ok(v) => v,
        Err(_) => {
            return Err(ListError::Parse);
        },
    };
    let text = match json_field(&v, "client_modified") {
        Some(f) => json_as_str(f),
        None => None,
    };
    match text {
        Some(t) => match parse_utc(t, REMOTE_TIME_FORMAT) {
            Ok((seconds, nanos)) => Ok(Timestamp { seconds, nanos }),
            Err(_) => Err(ListError::Timestamp),
        },
        None => Err(ListError::MissingField { field: MetadataField::ClientModified }),
    }
}

/// `s` with every double quote taken out.
pub open spec fn without_quotes(s: Seq<char>) -> Seq<char>
    decreases s.len(),
{
    if s.len() == 0 {
        Seq::empty()
    } else if s.last() == '"' {
        without_quotes(s.drop_last())
    } else {
        without_quotes(s.drop_last()).push(s.last())
    }
}

/// Takes the double quotes out of an entity tag.
pub fn strip_quotes(s: &str) -> (r: String)
    ensures
        r@ == without_quotes(s@),
{
    let mut out = String::new();
    for c in it: s.chars()
        invariant
            it.seq() == s@,
            out@ == without_quotes(it.seq().take(it.index() as int)),
    {
        assert(it.seq().take(it.index() + 1).drop_last() == it.seq().take(it.index() as int));
        if c != '"' {
            push_char(&mut out, c);
        }
    }
    assert(s@.take(s@.len() as int) == s@);
    out
}

/// What the store says of its copy: its fingerprint and when it was written.
#[derive(Debug, PartialEq, Eq)]
pub struct StoredMetadata {
    pub fingerprint: String,
    pub modified: Timestamp,
}

/// The stored copy's metadata, from the entity tag and the modification time
/// that the store reported; the tag's quotes are dropped.
pub open spec fn stored_of(e_tag: Option<Seq<char>>, last_modified: Option<Timestamp>) -> Result<(Seq<char>, Timestamp), ListError> {
    match (e_tag, last_modified) {
        (None, _) => Err(ListError::MissingField { field: MetadataField::ETag }),
        (Some(_), None) => Err(ListError::MissingField { field: MetadataField::LastModified }),
        (Some(t), Some(m)) => Ok((without_quotes(t), m)),
    }
}

/// The view of an optional text.
pub open spec fn opt_view(s: Option<String>) -> Option<Seq<char>> {
    match s {
        Some(t) => Some(t@),
        None => None,
    }
}

/// Builds the stored copy's metadata; fails on a missing field.
pub fn stored_metadata(e_tag: &Option<String>, last_modified: Option<Timestamp>) -> (r: Result<StoredMetadata, ListError>)
    ensures
        match stored_of(opt_view(*e_tag), last_modified) {
            Ok((fingerprint, modified)) => r is Ok && r->Ok_0.fingerprint@ == fingerprint && r->Ok_0.modified == modified,
            Err(e) => r == Err::<StoredMetadata, ListError>(e),
        },
{
    match (e_tag, last_modified) {
        (None, _) => Err(ListError::MissingField { field: MetadataField::ETag }),
        (Some(_), None) => Err(ListError::MissingField { field: MetadataField::LastModified }),
        (Some(t), Some(m)) => Ok(StoredMetadata { fingerprint: strip_quotes(t.as_str()), modified: m }),
    }
}

/// The content kept for a downloaded document: the body exactly as it came,
/// provided it is JSON.
pub open spec fn content_of(body: Seq<char>) -> Option<Seq<char>> {
    match parsed_json(body) {
        Some(_) => Some(body),
        None => None,
    }
}

/// A downloaded document, ready to store, with its fingerprint computed the
/// way the store computes its own: over exactly the bytes to be stored.
#[derive(Debug, PartialEq, Eq)]
pub struct RemoteContent {
    pub fingerprint: String,
    pub content: String,
}

/// Checks that a downloaded document is JSON and fingerprints it as it is.
pub fn remote_content(body: &str) -> (r: Result<RemoteContent, ListError>)
    ensures
        match content_of(body@) {
            Some(c) => r is Ok && r->Ok_0.content@ == c && r->Ok_0.fingerprint@ == md5_hex(c),
            None => r == Err::<RemoteContent, ListError>(ListError::Parse),
        },
        r is Ok ==> r->Ok_0.content@ == body@ && r->Ok_0.fingerprint@ == md5_hex(body@),
{
    match json_parse(body) {
        Ok(_) => Ok(RemoteContent { fingerprint: md5_hex_of(body), content: body.to_owned() }),
        Err(_) => Err(ListError::Parse),
    }
}

/// How a synchronization ended.
#[derive(Clone, Copy, Debug, PartialEq, Eq, Structural)]
pub enum SyncOutcome {
    /// The stored copy was already current; nothing was written.
    Unchanged,
    /// The remote document was written to the store.
    Updated,
}

/// What the caller reports back after performing an action.
#[derive(Debug, PartialEq, Eq)]
pub enum SyncEvent {
    /// Both metadata reads came back: the remote store's metadata response,
    /// and the stored object's entity tag and modification time.
    Metadata { remote_response: String, e_tag: Option<String>, last_modified: Option<Timestamp> },
    /// The remote document was downloaded: the response body.
    Content { body: String },
    /// The content was written to the store.
    Written,
}

/// What the caller is to do next.
#[derive(Debug, PartialEq, Eq)]
pub enum SyncAction {
    /// Read the remote modification time and the stored object's metadata.
    FetchMetadata,
    /// Download the remote document.
    FetchContent,
    /// Write this content to the store.
    Write { content: String },
    /// Stop: the synchronization is over.
    Finish { outcome: SyncOutcome },
    /// Stop: the synchronization failed.
    Fail { error: ListError },
}

/// Where a synchronization stands.
#[derive(Debug, PartialEq, Eq)]
pub enum SyncPhase {
    AwaitingMetadata,
    /// The download was asked for; the stored copy has this fingerprint.
    AwaitingContent { stored_fingerprint: String },
    AwaitingWrite,
    Finished,
}

/// The decisions of one synchronization run.
#[derive(Debug, PartialEq, Eq)]
pub struct Synchronizer {
    /// Fetch and write whatever the metadata say.
    pub force: bool,
    pub phase: SyncPhase,
}

pub enum SyncEventView {
    Metadata { remote_response: Seq<char>, e_tag: Option<Seq<char>>, last_modified: Option<Timestamp> },
    Content { body: Seq<char> },
    Written,
}

pub enum SyncActionView {
    FetchMetadata,
    FetchContent,
    Write { content: Seq<char> },
    Finish { outcome: SyncOutcome },
    Fail { error: ListError },
}

pub enum SyncPhaseView {
    AwaitingMetadata,
    AwaitingContent { stored_fingerprint: Seq<char> },
    AwaitingWrite,
    Finished,
}

pub struct SynchronizerView {
    pub force: bool,
    pub phase: SyncPhaseView,
}

impl View for SyncEvent {
    type V = SyncEventView;

    open spec fn view(&self) -> SyncEventView {
        match self {
            SyncEvent::Metadata { remote_response, e_tag, last_modified } => SyncEventView::Metadata {
                remote_response: remote_response@,
                e_tag: opt_view(*e_tag),
                last_modified: *last_modified,
            },
            SyncEvent::Content { body } => SyncEventView::Content { body: body@ },
            SyncEvent::Written => SyncEventView::Written,
        }
    }
}

impl View for SyncAction {
    type V = SyncActionView;

    open spec fn view(&self) -> SyncActionView {
        match self {
            SyncAction::FetchMetadata => SyncActionView::FetchMetadata,
            SyncAction::FetchContent => SyncActionView::FetchContent,
            SyncAction::Write { content } => SyncActionView::Write { content: content@ },
            SyncAction::Finish { outcome } => SyncActionView::Finish { outcome: *outcome },
            SyncAction::Fail { error } => SyncActionView::Fail { error: *error },
        }
    }
}

impl View for Synchronizer {
    type V = SynchronizerView;

    open spec fn view(&self) -> SynchronizerView {
        SynchronizerView {
            force: self.force,
            phase: match self.phase {
                SyncPhase::AwaitingMetadata => SyncPhaseView::AwaitingMetadata,
                SyncPhase::AwaitingContent { stored_fingerprint } => SyncPhaseView::AwaitingContent {
                    stored_fingerprint: stored_fingerprint@,
                },
                SyncPhase::AwaitingWrite => SyncPhaseView::AwaitingWrite,
                SyncPhase::Finished => SyncPhaseView::Finished,
            },
        }
    }
}

/// The same run, in a new phase.
pub open spec fn in_phase(s: SynchronizerView, phase: SyncPhaseView) -> SynchronizerView {
    SynchronizerView { force: s.force, phase }
}

/// One decision: the phase that follows an event, and the next action.
///
/// Unless forced, a remote document that is not newer than the stored copy
/// is not downloaded, and a download whose fingerprint equals the stored
/// copy's is not written.
pub open spec fn sync_next(s: SynchronizerView, e: SyncEventView) -> (SynchronizerView, SyncActionView) {
    match (s.phase, e) {
        (
            SyncPhaseView::AwaitingMetadata,
            SyncEventView::Metadata { remote_response, e_tag, last_modified },
        ) => match (remote_time_of(remote_response), stored_of(e_tag, last_modified)) {
            (Err(error), _) => (in_phase(s, SyncPhaseView::Finished), SyncActionView::Fail { error }),
            (Ok(_), Err(error)) => (in_phase(s, SyncPhaseView::Finished), SyncActionView::Fail { error }),
            (Ok(remote), Ok((fingerprint, stored))) => if !s.force && not_after(remote, stored) {
                (
                    in_phase(s, SyncPhaseView::Finished),
                    SyncActionView::Finish { outcome: SyncOutcome::Unchanged },
                )
            } else {
                (
                    in_phase(s, SyncPhaseView::AwaitingContent { stored_fingerprint: fingerprint }),
                    SyncActionView::FetchContent,
                )
            },
        },
        (SyncPhaseView::AwaitingContent { stored_fingerprint }, SyncEventView::Content { body }) => match content_of(body) {
            None => (in_phase(s, SyncPhaseView::Finished), SyncActionView::Fail { error: ListError::Parse }),
            Some(content) => if !s.force && md5_hex(content) == stored_fingerprint {
                (
                    in_phase(s, SyncPhaseView::Finished),
                    SyncActionView::Finish { outcome: SyncOutcome::Unchanged },
                )
            } else {
                (in_phase(s, SyncPhaseView::AwaitingWrite), SyncActionView::Write { content })
            },
        },
        (SyncPhaseView::AwaitingWrite, SyncEventView::Written) => (
            in_phase(s, SyncPhaseView::Finished),
            SyncActionView::Finish { outcome: SyncOutcome::Updated },
        ),
        _ => (in_phase(s, SyncPhaseView::Finished), SyncActionView::Fail { error: ListError::UnexpectedEvent }),
    }
}

impl Synchronizer {
    /// Starts a run; its first action is to read the metadata.
    pub fn start(force: bool) -> (r: (Synchronizer, SyncAction))
        ensures
            r.0@ == (SynchronizerView { force, phase: SyncPhaseView::AwaitingMetadata }),
            r.1@ == SyncActionView::FetchMetadata,
    {
        (Synchronizer { force, phase: SyncPhase::AwaitingMetadata }, SyncAction::FetchMetadata)
    }

    /// Takes in what came of the last action and says what to do next.
    pub fn step(&mut self, event: SyncEvent) -> (r: SyncAction)
        ensures
            (final(self)@, r@) == sync_next(old(self)@, event@),
    {
        let mut phase = SyncPhase::Finished;
        std::mem::swap(&mut self.phase, &mut phase);
        match (phase, event) {
            (SyncPhase::AwaitingMetadata, SyncEvent::Metadata { remote_response, e_tag, last_modified }) => {
                let remote = match remote_modified_time(remote_response.as_str()) {
                    Ok(t) => t,
                    Err(error) => {
                        return SyncAction::Fail { error };
                    },
                };
                let stored = match stored_metadata(&e_tag, last_modified) {
                    Ok(m) => m,
                    Err(error) => {
                        return SyncAction::Fail { error };
                    },
                };
                if !self.force && remote.is_not_after(&stored.modified) {
                    SyncAction::Finish { outcome: SyncOutcome::Unchanged }
                } else {
                    self.phase = SyncPhase::AwaitingContent { stored_fingerprint: stored.fingerprint };
                    SyncAction::FetchContent
                }
            },
            (SyncPhase::AwaitingContent { stored_fingerprint }, SyncEvent::Content { body }) => {
                let fetched = match remote_content(body.as_str()) {
                    Ok(c) => c,
                    Err(error) => {
                        return SyncAction::Fail { error };
                    },
                };
                if !self.force && fetched.fingerprint.eq(&stored_fingerprint) {
                    SyncAction::Finish { outcome: SyncOutcome::Unchanged }
                } else {
                    self.phase = SyncPhase::AwaitingWrite;
                    SyncAction::Write { content: fetched.content }
                }
            },
            (SyncPhase::AwaitingWrite, SyncEvent::Written) => {
                SyncAction::Finish { outcome: SyncOutcome::Updated }
            },
            _ => SyncAction::Fail { error: ListError::UnexpectedEvent },
        }
    }
}


/// The actions of one whole run, when the caller answers the metadata read
/// with `meta`, the download with `body`, and a write with success.
pub open spec fn sync_run(force: bool, meta: SyncEventView, body: Seq<char>) -> Seq<SyncActionView> {
    let s0 = SynchronizerView { force, phase: SyncPhaseView::AwaitingMetadata };
    let (s1, a1) = sync_next(s0, meta);
    if a1 is FetchContent {
        let (s2, a2) = sync_next(s1, SyncEventView::Content { body });
        if a2 is Write {
            let (_, a3) = sync_next(s2, SyncEventView::Written);
            seq![SyncActionView::FetchMetadata, a1, a2, a3]
        } else {
            seq![SyncActionView::FetchMetadata, a1, a2]
        }
    } else {
        seq![SyncActionView::FetchMetadata, a1]
    }
}

/// Whether a run writes to the store.
pub open spec fn run_writes(run: Seq<SyncActionView>) -> bool {
    exists|k: int| 0 <= k < run.len() && (#[trigger] run[k]) is Write
}

/// Whether a run downloads the remote document.
pub open spec fn run_fetches_content(run: Seq<SyncActionView>) -> bool {
    exists|k: int| 0 <= k < run.len() && (#[trigger] run[k]) is FetchContent
}

/// The metadata event made of its three parts.
pub open spec fn metadata_event(response: Seq<char>, e_tag: Option<Seq<char>>, last_modified: Option<Timestamp>) -> SyncEventView {
    SyncEventView::Metadata { remote_response: response, e_tag, last_modified }
}

/// Unforced, a run whose remote document is not newer than the stored copy
/// ends unchanged right after the metadata, without downloading.
pub proof fn lemma_stale_remote_skips(
    response: Seq<char>,
    e_tag: Option<Seq<char>>,
    last_modified: Option<Timestamp>,
    body: Seq<char>,
)
    requires
        remote_time_of(response) is Ok,
        stored_of(e_tag, last_modified) is Ok,
        not_after(remote_time_of(response)->Ok_0, stored_of(e_tag, last_modified)->Ok_0.1),
    ensures
        sync_run(false, metadata_event(response, e_tag, last_modified), body) == seq![
            SyncActionView::FetchMetadata,
            SyncActionView::Finish { outcome: SyncOutcome::Unchanged },
        ],
        !run_fetches_content(sync_run(false, metadata_event(response, e_tag, last_modified), body)),
{
    let run = sync_run(false, metadata_event(response, e_tag, last_modified), body);
    assert(!run_fetches_content(run)) by {
        assert(forall|k: int| 0 <= k < run.len() ==> !((#[trigger] run[k]) is FetchContent));
    }
}

/// Forced, a run whose metadata and download can be read always downloads,
/// writes what it downloaded, and ends updated.
pub proof fn lemma_force_writes(
    response: Seq<char>,
    e_tag: Option<Seq<char>>,
    last_modified: Option<Timestamp>,
    body: Seq<char>,
)
    requires
        remote_time_of(response) is Ok,
        stored_of(e_tag, last_modified) is Ok,
        content_of(body) is Some,
    ensures
        sync_run(true, metadata_event(response, e_tag, last_modified), body) == seq![
            SyncActionView::FetchMetadata,
            SyncActionView::FetchContent,
            SyncActionView::Write { content: content_of(body)->Some_0 },
            SyncActionView::Finish { outcome: SyncOutcome::Updated },
        ],
{
}

/// After a run that wrote the remote document, an unforced run on the same
/// remote content, against a store whose fingerprint is that of what was
/// written, ends unchanged and writes nothing: whether its metadata stop it
/// early or its fingerprint comparison does.
pub proof fn lemma_second_run_unchanged(
    first_force: bool,
    first_response: Seq<char>,
    first_e_tag: Option<Seq<char>>,
    first_last_modified: Option<Timestamp>,
    response: Seq<char>,
    e_tag: Option<Seq<char>>,
    last_modified: Option<Timestamp>,
    body: Seq<char>,
)
    requires
        sync_run(first_force, metadata_event(first_response, first_e_tag, first_last_modified), body).last()
            == (SyncActionView::Finish { outcome: SyncOutcome::Updated }),
        remote_time_of(response) is Ok,
        stored_of(e_tag, last_modified) is Ok,
        content_of(body) is Some,
        stored_of(e_tag, last_modified)->Ok_0.0 == md5_hex(content_of(body)->Some_0),
    ensures
        sync_run(false, metadata_event(response, e_tag, last_modified), body).last()
            == (SyncActionView::Finish { outcome: SyncOutcome::Unchanged }),
        !run_writes(sync_run(false, metadata_event(response, e_tag, last_modified), body)),
{
    let run = sync_run(false, metadata_event(response, e_tag, last_modified), body);
    assert(!run_writes(run)) by {
        assert(forall|k: int| 0 <= k < run.len() ==> !((#[trigger] run[k]) is Write));
    }
}

} // verus!
