//! The decision chain for one request, as a state machine.
//!
//! The caller performs each `Action` (running the static file service, probing
//! or enumerating a directory, reading the upload, writing the file) and hands
//! the outcome back as an `Event`. The static file service answers first; only
//! its "not found" lets a `GET` or `HEAD` fall back to a directory listing,
//! and a `POST` goes straight to the upload.
use vstd::prelude::*;
use crate::config::ServerConfig;
use crate::listing::{
    entries_view, listing_html, render_listing, EntryInfo, EntryView,
};
use crate::path::{join_path, joined, resolve, resolved};

verus! {

/// The status by which the static file service reports a miss.
pub const NOT_FOUND: u16 = 404;

#[derive(Clone, Copy, Debug, PartialEq, Eq, Structural)]
pub enum Method {
    Get,
    Head,
    Post,
    Other,
}

#[derive(Clone, Copy, Debug, PartialEq, Eq, Structural)]
pub enum Phase {
    /// Waiting for the static file service's status.
    AwaitStatic,
    /// Waiting to learn whether the resolved path is a directory.
    AwaitDirCheck,
    /// Collecting the directory's entries.
    Listing,
    /// Waiting for the first multipart field of an upload.
    AwaitUpload,
    /// Waiting for the uploaded file to be written.
    AwaitWrite,
    /// The response has been chosen.
    Finished,
}

/// An outcome of the work that the last action asked for.
pub enum Event {
    /// The static file service answered with this status.
    StaticResponse { status: u16 },
    /// The resolved path is, or is not, a directory.
    DirChecked { is_dir: bool },
    /// The enumeration produced one more entry.
    Entry { name: String, is_dir: bool },
    /// The enumeration is complete.
    EntriesEnd,
    /// The enumeration failed.
    EntriesFailed,
    /// The first multipart field was read; it has this declared file name.
    UploadField { file_name: Option<String> },
    /// The request holds no readable multipart field.
    UploadUnreadable,
    /// Writing the uploaded file succeeded, or did not.
    WriteFinished { ok: bool },
}

pub ghost enum EventView {
    StaticResponse { status: u16 },
    DirChecked { is_dir: bool },
    Entry { name: Seq<char>, is_dir: bool },
    EntriesEnd,
    EntriesFailed,
    UploadField { file_name: Option<Seq<char>> },
    UploadUnreadable,
    WriteFinished { ok: bool },
}

impl View for Event {
    type V = EventView;

    open spec fn view(&self) -> EventView {
        match self {
            Event::StaticResponse { status } => EventView::StaticResponse { status: *status },
            Event::DirChecked { is_dir } => EventView::DirChecked { is_dir: *is_dir },
            Event::Entry { name, is_dir } => EventView::Entry { name: name@, is_dir: *is_dir },
            Event::EntriesEnd => EventView::EntriesEnd,
            Event::EntriesFailed => EventView::EntriesFailed,
            Event::UploadField { file_name } => EventView::UploadField {
                file_name: match file_name {
                    Some(n) => Some(n@),
                    None => None,
                },
            },
            Event::UploadUnreadable => EventView::UploadUnreadable,
            Event::WriteFinished { ok } => EventView::WriteFinished { ok: *ok },
        }
    }
}

/// What the caller is to do next.
#[derive(Debug)]
pub enum Action {
    /// Run the static file service on the request.
    ServeStatic,
    /// Send the static file service's response as it is.
    SendStatic,
    /// Find out whether `path` is a directory.
    CheckDir { path: String },
    /// Read the next entry of the directory found.
    ReadNextEntry,
    /// Send `html` as a 200 HTML page.
    SendListing { html: String },
    /// Read the first multipart field of the request.
    ReadUploadField,
    /// Create or truncate the file at `path` and write the field's bytes to it.
    WriteUpload { path: String },
    /// Send an empty success response.
    SendUploaded,
    /// Send a 500 response with a generic upload failure message.
    SendUploadFailed,
    /// The event does not belong to the current phase; nothing changed.
    Unexpected,
}

pub ghost enum ActionView {
    ServeStatic,
    SendStatic,
    CheckDir { path: Seq<char> },
    ReadNextEntry,
    SendListing { html: Seq<char> },
    ReadUploadField,
    WriteUpload { path: Seq<char> },
    SendUploaded,
    SendUploadFailed,
    Unexpected,
}

impl View for Action {
    type V = ActionView;

    open spec fn view(&self) -> ActionView {
        match self {
            Action::ServeStatic => ActionView::ServeStatic,
            Action::SendStatic => ActionView::SendStatic,
            Action::CheckDir { path } => ActionView::CheckDir { path: path@ },
            Action::ReadNextEntry => ActionView::ReadNextEntry,
            Action::SendListing { html } => ActionView::SendListing { html: html@ },
            Action::ReadUploadField => ActionView::ReadUploadField,
            Action::WriteUpload { path } => ActionView::WriteUpload { path: path@ },
            Action::SendUploaded => ActionView::SendUploaded,
            Action::SendUploadFailed => ActionView::SendUploadFailed,
            Action::Unexpected => ActionView::Unexpected,
        }
    }
}

/// The state of one request.
pub struct Exchange {
    method: Method,
    root: String,
    uri: String,
    phase: Phase,
    entries: Vec<EntryInfo>,
}

pub ghost struct ExchangeView {
    pub method: Method,
    pub root: Seq<char>,
    pub uri: Seq<char>,
    pub phase: Phase,
    pub entries: Seq<EntryView>,
}

impl View for Exchange {
    type V = ExchangeView;

    closed spec fn view(&self) -> ExchangeView {
        ExchangeView {
            method: self.method,
            root: self.root@,
            uri: self.uri@,
            phase: self.phase,
            entries: entries_view(self.entries@),
        }
    }
}

pub open spec fn is_read(m: Method) -> bool {
    m == Method::Get || m == Method::Head
}

/// A new request to `uri` under `root`, and its first action.
pub open spec fn started(root: Seq<char>, method: Method, uri: Seq<char>) -> (ExchangeView, ActionView) {
    let x = ExchangeView {
        method,
        root,
        uri,
        phase: if method == Method::Post { Phase::AwaitUpload } else { Phase::AwaitStatic },
        entries: Seq::empty(),
    };
    if method == Method::Post {
        (x, ActionView::ReadUploadField)
    } else {
        (x, ActionView::ServeStatic)
    }
}

/// The state `x` moved to `p`.
pub open spec fn in_phase(x: ExchangeView, p: Phase) -> ExchangeView {
    ExchangeView { phase: p, ..x }
}

/// The transition table: the next state and action after event `e` in state `x`.
pub open spec fn next(x: ExchangeView, e: EventView) -> (ExchangeView, ActionView) {
    match (x.phase, e) {
        (Phase::AwaitStatic, EventView::StaticResponse { status }) => {
            if status == NOT_FOUND && is_read(x.method) {
                (
                    in_phase(x, Phase::AwaitDirCheck),
                    ActionView::CheckDir { path: resolved(x.root, x.uri) },
                )
            } else {
                (in_phase(x, Phase::Finished), ActionView::SendStatic)
            }
        },
        (Phase::AwaitDirCheck, EventView::DirChecked { is_dir }) => {
            if is_dir {
                (in_phase(x, Phase::Listing), ActionView::ReadNextEntry)
            } else {
                (in_phase(x, Phase::Finished), ActionView::SendStatic)
            }
        },
        (Phase::Listing, EventView::Entry { name, is_dir }) => (
            ExchangeView { entries: x.entries.push(EntryView { name, is_dir }), ..x },
            ActionView::ReadNextEntry,
        ),
        (Phase::Listing, EventView::EntriesEnd) => (
            in_phase(x, Phase::Finished),
            ActionView::SendListing { html: listing_html(x.entries) },
        ),
        (Phase::Listing, EventView::EntriesFailed) => (
            in_phase(x, Phase::Finished),
            ActionView::SendStatic,
        ),
        (Phase::AwaitUpload, EventView::UploadField { file_name }) => match file_name {
            Some(n) => (
                in_phase(x, Phase::AwaitWrite),
                ActionView::WriteUpload { path: joined(resolved(x.root, x.uri), n) },
            ),
            None => (in_phase(x, Phase::Finished), ActionView::SendUploadFailed),
        },
        (Phase::AwaitUpload, EventView::UploadUnreadable) => (
            in_phase(x, Phase::Finished),
            ActionView::SendUploadFailed,
        ),
        (Phase::AwaitWrite, EventView::WriteFinished { ok }) => (
            in_phase(x, Phase::Finished),
            if ok { ActionView::SendUploaded } else { ActionView::SendUploadFailed },
        ),
        _ => (x, ActionView::Unexpected),
    }
}

impl Exchange {
    /// Begins handling a request with `method` to `uri`, served from the
    /// configured root.
    pub fn start(config: &ServerConfig, method: Method, uri: String) -> (r: (Exchange, Action))
        ensures
            (r.0@, r.1@) == started(config@, method, uri@),
    {
        let root = config.work_path().to_string();
        let post = method == Method::Post;
        let x = Exchange {
            method,
            root,
            uri,
            phase: if post { Phase::AwaitUpload } else { Phase::AwaitStatic },
            entries: Vec::new(),
        };
        assert(x@.entries =~= Seq::<EntryView>::empty());
        if post {
            (x, Action::ReadUploadField)
        } else {
            (x, Action::ServeStatic)
        }
    }

    pub fn phase(&self) -> (r: Phase)
        ensures
            r == self@.phase,
    {
        self.phase
    }

    /// Takes in the outcome of the last action and says what to do next.
    pub fn step(&mut self, ev: Event) -> (r: Action)
        ensures
            (final(self)@, r@) == next(old(self)@, ev@),
    {
        match (self.phase, ev) {
            (Phase::AwaitStatic, Event::StaticResponse { status }) => {
                if status == NOT_FOUND && (self.method == Method::Get || self.method == Method::Head) {
                    self.phase = Phase::AwaitDirCheck;
                    Action::CheckDir { path: resolve(self.root.as_str(), self.uri.as_str()) }
                } else {
                    self.phase = Phase::Finished;
                    Action::SendStatic
                }
            },
            (Phase::AwaitDirCheck, Event::DirChecked { is_dir }) => {
                if is_dir {
                    self.phase = Phase::Listing;
                    Action::ReadNextEntry
                } else {
                    self.phase = Phase::Finished;
                    Action::SendStatic
                }
            },
            (Phase::Listing, Event::Entry { name, is_dir }) => {
                let e = EntryInfo::new(name, is_dir);
                self.entries.push(e);
                assert(entries_view(self.entries@) =~= old(self)@.entries.push(e@));
                Action::ReadNextEntry
            },
            (Phase::Listing, Event::EntriesEnd) => {
                self.phase = Phase::Finished;
                Action::SendListing { html: render_listing(&self.entries) }
            },
            (Phase::Listing, Event::EntriesFailed) => {
                self.phase = Phase::Finished;
                Action::SendStatic
            },
            (Phase::AwaitUpload, Event::UploadField { file_name }) => match file_name {
                Some(n) => {
                    self.phase = Phase::AwaitWrite;
                    let dir = resolve(self.root.as_str(), self.uri.as_str());
                    Action::WriteUpload { path: join_path(dir.as_str(), n.as_str()) }
                },
                None => {
                    self.phase = Phase::Finished;
                    Action::SendUploadFailed
                },
            },
            (Phase::AwaitUpload, Event::UploadUnreadable) => {
                self.phase = Phase::Finished;
                Action::SendUploadFailed
            },
            (Phase::AwaitWrite, Event::WriteFinished { ok }) => {
                self.phase = Phase::Finished;
                if ok {
                    Action::SendUploaded
                } else {
                    Action::SendUploadFailed
                }
            },
            _ => Action::Unexpected,
        }
    }
}

/// The state after the events `evs`, in order, starting from `x`.
pub open spec fn run(x: ExchangeView, evs: Seq<EventView>) -> ExchangeView
    decreases evs.len(),
{
    if evs.len() == 0 {
        x
    } else {
        next(run(x, evs.drop_last()), evs.last()).0
    }
}

/// The enumeration events that report the entries `es`, in order.
pub open spec fn entry_events(es: Seq<EntryView>) -> Seq<EventView> {
    es.map_values(|e: EntryView| EventView::Entry { name: e.name, is_dir: e.is_dir })
}

/// A response of the static file service other than "not found" (a file's
/// bytes, or an I/O error) is sent as it is.
pub proof fn lemma_found_passes_through(x: ExchangeView, status: u16)
    requires
        x.phase == Phase::AwaitStatic,
        status != NOT_FOUND,
    ensures
        next(x, EventView::StaticResponse { status }) == (
            in_phase(x, Phase::Finished),
            ActionView::SendStatic,
        ),
{
}

/// Reporting entries while listing appends them, in order, and nothing else.
pub proof fn lemma_entries_collected(x: ExchangeView, es: Seq<EntryView>)
    requires
        x.phase == Phase::Listing,
    ensures
        run(x, entry_events(es)) == (ExchangeView { entries: x.entries + es, ..x }),
    decreases es.len(),
{
    if es.len() > 0 {
        let pre = es.drop_last();
        assert(entry_events(es).drop_last() =~= entry_events(pre));
        lemma_entries_collected(x, pre);
        assert(x.entries + pre.push(es.last()) =~= (x.entries + pre).push(es.last()));
        assert(pre.push(es.last()) =~= es);
    } else {
        assert(x.entries + es =~= x.entries);
    }
}

/// A `GET` or `HEAD` that the static file service misses, on a directory
/// whose enumeration yields `es`, is answered with the listing page of
/// exactly `es`: one item per entry, in enumeration order.
pub proof fn lemma_directory_lists_its_entries(
    root: Seq<char>,
    method: Method,
    uri: Seq<char>,
    es: Seq<EntryView>,
)
    requires
        is_read(method),
    ensures
        ({
            let x0 = started(root, method, uri).0;
            let x1 = next(x0, EventView::StaticResponse { status: NOT_FOUND });
            let x2 = next(x1.0, EventView::DirChecked { is_dir: true });
            let x3 = run(x2.0, entry_events(es));
            &&& x1.1 == ActionView::CheckDir { path: resolved(root, uri) }
            &&& x2.1 == ActionView::ReadNextEntry
            &&& next(x3, EventView::EntriesEnd).1 == ActionView::SendListing {
                html: listing_html(es),
            }
        }),
{
    let x0 = started(root, method, uri).0;
    let x2 = next(next(x0, EventView::StaticResponse { status: NOT_FOUND }).0, EventView::DirChecked { is_dir: true }).0;
    lemma_entries_collected(x2, es);
    assert(x2.entries + es =~= es);
}

/// A `GET` or `HEAD` of a path that is neither a file nor a directory gets the
/// static file service's "not found" response.
pub proof fn lemma_missing_path_not_found(root: Seq<char>, method: Method, uri: Seq<char>)
    requires
        is_read(method),
    ensures
        ({
            let x0 = started(root, method, uri).0;
            let x1 = next(x0, EventView::StaticResponse { status: NOT_FOUND }).0;
            let x2 = next(x1, EventView::DirChecked { is_dir: false });
            &&& x2.0.phase == Phase::Finished
            &&& x2.1 == ActionView::SendStatic
        }),
{
}

/// The listing page depends on the collected entries alone: whatever the
/// root, request path or method, equal entries give the same page.
pub proof fn lemma_listing_depends_on_entries_only(x: ExchangeView, y: ExchangeView)
    requires
        x.phase == Phase::Listing,
        y.phase == Phase::Listing,
        x.entries == y.entries,
    ensures
        next(x, EventView::EntriesEnd).1 == next(y, EventView::EntriesEnd).1,
        next(x, EventView::EntriesEnd).1 == (ActionView::SendListing { html: listing_html(x.entries) }),
{
}

/// A failed enumeration, after any number of entries, still ends the request
/// with a response: the static file service's "not found".
pub proof fn lemma_enumeration_failure_answers(x: ExchangeView)
    requires
        x.phase == Phase::Listing,
    ensures
        next(x, EventView::EntriesFailed) == (in_phase(x, Phase::Finished), ActionView::SendStatic),
{
}

/// An upload to `uri` of a field named `name` writes the file `name` in the
/// directory that `uri` resolves to, and the same upload made again writes
/// the very same file (which the write truncates first).
pub proof fn lemma_upload_target(root: Seq<char>, uri: Seq<char>, name: Seq<char>)
    ensures
        ({
            let (x0, a0) = started(root, Method::Post, uri);
            let x1 = next(x0, EventView::UploadField { file_name: Some(name) });
            &&& a0 == ActionView::ReadUploadField
            &&& x1.1 == ActionView::WriteUpload { path: joined(resolved(root, uri), name) }
            &&& next(x1.0, EventView::WriteFinished { ok: true }).1 == ActionView::SendUploaded
        }),
{
}

} // verus!
