//! The coordinator's session state and its transitions. One owned mutable
//! struct holds everything the reactor loop may change; it advances only on
//! discrete inputs — lifecycle events from background work, and key intents
//! from the presentation layer — and every potentially blocking action is
//! returned to the caller as a directive rather than performed here.
use vstd::prelude::*;

use vstd::string::StringExecFns;

use crate::network::{url_spec, DownloadEvent, DownloadFormat, Downloader};
use crate::text::{append_str, chars_to_string, last_segment};

verus! {

/// Bound of the log ring: the oldest entry is evicted past this many.
pub const LOG_CAP: usize = 100;

/// Which view the session shows.
#[derive(Debug, PartialEq, Eq, Clone, Copy, Structural)]
pub enum ActiveTab {
    Download,
    Database,
}

/// Which input field of the download view holds the focus.
#[derive(Debug, PartialEq, Eq, Clone, Copy, Structural)]
pub enum FocusField {
    Continent,
    Country,
    Region,
    Format,
}

/// The session state owned exclusively by the coordinator.
pub struct App {
    pub focus_field: FocusField,
    pub download_format: DownloadFormat,
    pub download_progress: u64,
    pub is_downloading: bool,
    pub last_downloaded_path: Option<String>,
    pub download_status_text: String,
    pub active_tab: ActiveTab,
    pub sql_input: String,
    pub sql_output: String,
    pub sql_history: Vec<String>,
    pub should_quit: bool,
    pub logs: Vec<String>,
}

/// The log ring after appending one message: the message goes to the end,
/// and the oldest entry leaves once the bound is exceeded.
pub open spec fn logs_after(logs: Seq<Seq<char>>, msg: Seq<char>) -> Seq<Seq<char>> {
    if logs.len() < LOG_CAP {
        logs.push(msg)
    } else {
        logs.push(msg).drop_first()
    }
}

/// The next focused field, cycling through the download view's fields.
pub open spec fn next_focus_spec(f: FocusField) -> FocusField {
    match f {
        FocusField::Continent => FocusField::Country,
        FocusField::Country => FocusField::Region,
        FocusField::Region => FocusField::Format,
        FocusField::Format => FocusField::Continent,
    }
}

/// The other download format.
pub open spec fn toggle_format_spec(f: DownloadFormat) -> DownloadFormat {
    match f {
        DownloadFormat::Pbf => DownloadFormat::Shapefile,
        DownloadFormat::Shapefile => DownloadFormat::Pbf,
    }
}

/// The other tab.
pub open spec fn toggle_tab_spec(t: ActiveTab) -> ActiveTab {
    match t {
        ActiveTab::Download => ActiveTab::Database,
        ActiveTab::Database => ActiveTab::Download,
    }
}

/// The log entry announcing a requested selector.
pub open spec fn requesting_log_spec(
    continent: Seq<char>,
    country: Seq<char>,
    region: Seq<char>,
) -> Seq<char> {
    "Requesting: "@ + continent + "/"@ + country + "/"@ + region
}

/// The log entry announcing the resolved URL.
pub open spec fn url_log_spec(url: Seq<char>) -> Seq<char> {
    "URL: "@ + url
}

/// What the coordinator decides on a download-start intent: a second start
/// while a cycle is in flight is a no-op; an empty continent is rejected
/// before any background work; otherwise the session enters the downloading
/// state and the resolved URL is handed back for the caller to fetch.
pub open spec fn start_postcondition(
    pre: App,
    continent: Seq<char>,
    country: Seq<char>,
    region: Seq<char>,
    post: App,
    url: Option<String>,
) -> bool {
    if pre.is_downloading {
        post == pre && url is None
    } else if continent.len() == 0 {
        &&& post == (App { logs: post.logs, ..pre })
        &&& post.logs.deep_view() == logs_after(
            pre.logs.deep_view(),
            "Error: Continent is required"@,
        )
        &&& url is None
    } else {
        &&& post == (App {
            is_downloading: true,
            download_progress: 0u64,
            download_status_text: post.download_status_text,
            logs: post.logs,
            ..pre
        })
        &&& post.download_status_text@ == "Starting..."@
        &&& post.logs.deep_view() == logs_after(
            logs_after(pre.logs.deep_view(), requesting_log_spec(continent, country, region)),
            url_log_spec(url_spec(continent, country, region, pre.download_format)),
        )
        &&& (url matches Some(u) && u@ == url_spec(continent, country, region, pre.download_format))
    }
}

impl App {
    /// The session's invariant: the log ring respects its bound and progress
    /// is a percentage.
    pub open spec fn wf(self) -> bool {
        &&& self.logs@.len() <= LOG_CAP
        &&& self.download_progress <= 100
    }

    /// A fresh idle session.
    pub fn new() -> (r: App)
        ensures
            r.wf(),
            r.focus_field is Continent,
            r.download_format is Pbf,
            r.download_progress == 0,
            !r.is_downloading,
            r.last_downloaded_path is None,
            r.download_status_text@ == "Ready"@,
            r.active_tab is Download,
            r.sql_input@ == Seq::<char>::empty(),
            r.sql_output@ == "Ready to query."@,
            r.sql_history@ == Seq::<String>::empty(),
            !r.should_quit,
            r.logs@ == Seq::<String>::empty(),
    {
        let mut status: Vec<char> = Vec::new();
        append_str(&mut status, "Ready");
        let mut output: Vec<char> = Vec::new();
        append_str(&mut output, "Ready to query.");
        App {
            focus_field: FocusField::Continent,
            download_format: DownloadFormat::Pbf,
            download_progress: 0,
            is_downloading: false,
            last_downloaded_path: None,
            download_status_text: chars_to_string(&status),
            active_tab: ActiveTab::Download,
            sql_input: String::new(),
            sql_output: chars_to_string(&output),
            sql_history: Vec::new(),
            should_quit: false,
            logs: Vec::new(),
        }
    }

    /// Periodic idle bookkeeping; the session is unchanged.
    pub fn on_tick(&mut self)
        ensures
            *final (self) == *old(self),
    {
    }

    /// Moves the focus to the next field of the download view.
    pub fn next_focus(&mut self)
        ensures
            (*final (self) == (App {
                focus_field: next_focus_spec(old(self).focus_field),
                ..*old(self)
            })),
    {
        self.focus_field = match self.focus_field {
            FocusField::Continent => FocusField::Country,
            FocusField::Country => FocusField::Region,
            FocusField::Region => FocusField::Format,
            FocusField::Format => FocusField::Continent,
        };
    }

    /// Toggles the download format.
    pub fn toggle_format(&mut self)
        ensures
            (*final (self) == (App {
                download_format: toggle_format_spec(old(self).download_format),
                ..*old(self)
            })),
    {
        self.download_format = match self.download_format {
            DownloadFormat::Pbf => DownloadFormat::Shapefile,
            DownloadFormat::Shapefile => DownloadFormat::Pbf,
        };
    }

    /// Appends a message to the bounded log ring.
    pub fn add_log(&mut self, msg: String)
        requires
            old(self).logs@.len() <= LOG_CAP,
        ensures
            final (self).logs@.len() <= LOG_CAP,
            final (self).logs.deep_view() == logs_after(old(self).logs.deep_view(), msg@),
            (*final (self) == (App { logs: final (self).logs, ..*old(self) })),
    {
        let ghost pre = self.logs.deep_view();
        self.logs.push(msg);
        proof {
            assert(self.logs.deep_view() =~= pre.push(msg@));
        }
        if self.logs.len() > LOG_CAP {
            let ghost mid = self.logs.deep_view();
            self.logs.remove(0);
            proof {
                assert(self.logs.deep_view() =~= mid.drop_first());
            }
        }
    }

    /// Handles a download-start intent for the given selector.
    pub fn start_download(&mut self, continent: &str, country: &str, region: &str) -> (url:
        Option<String>)
        requires
            old(self).wf(),
        ensures
            final (self).wf(),
            start_postcondition(*old(self), continent@, country@, region@, *final (self), url),
    {
        if self.is_downloading {
            return None;
        }
        if continent.is_empty() {
            let mut m: Vec<char> = Vec::new();
            append_str(&mut m, "Error: Continent is required");
            self.add_log(chars_to_string(&m));
            return None;
        }
        self.is_downloading = true;
        self.download_progress = 0;
        let mut status: Vec<char> = Vec::new();
        append_str(&mut status, "Starting...");
        self.download_status_text = chars_to_string(&status);
        let mut req: Vec<char> = Vec::new();
        append_str(&mut req, "Requesting: ");
        append_str(&mut req, continent);
        append_str(&mut req, "/");
        append_str(&mut req, country);
        append_str(&mut req, "/");
        append_str(&mut req, region);
        proof {
            assert(req@ =~= requesting_log_spec(continent@, country@, region@));
        }
        self.add_log(chars_to_string(&req));
        let downloader = Downloader::new();
        let url = downloader.construct_url(continent, country, region, &self.download_format);
        let mut ulog: Vec<char> = Vec::new();
        append_str(&mut ulog, "URL: ");
        append_str(&mut ulog, url.as_str());
        self.add_log(chars_to_string(&ulog));
        Some(url)
    }
}

/// What the coordinator asks its caller to do after handling an event;
/// anything that could block (spawning the import, acquiring the store) is
/// delegated rather than performed on the reactor path.
#[derive(Debug)]
pub enum Directive {
    DoNothing,
    /// Spawn the import orchestrator, off the reactor, for this path.
    SpawnImport(String),
    /// Attempt a non-blocking store acquisition and run this preview query.
    RunPreview(String),
}

/// The canned preview query run against a freshly imported relation.
pub open spec fn preview_query_spec() -> Seq<char> {
    "SELECT * FROM imported_data LIMIT 10;"@
}

/// The canned preview query run against a freshly imported relation.
pub fn preview_query() -> (r: &'static str)
    ensures
        r@ == preview_query_spec(),
{
    "SELECT * FROM imported_data LIMIT 10;"
}

/// The status line once a download saved its file.
pub open spec fn saved_status_spec(path: Seq<char>) -> Seq<char> {
    "Saved to \""@ + last_segment(path) + "\""@
}

/// The log entry for a completed download.
pub open spec fn complete_log_spec(path: Seq<char>) -> Seq<char> {
    "Download complete: \""@ + path + "\""@
}

/// An error rendered behind the common prefix.
pub open spec fn error_text_spec(msg: Seq<char>) -> Seq<char> {
    "Error: "@ + msg
}

/// The log entry for a failed import.
pub open spec fn import_failed_log_spec(msg: Seq<char>) -> Seq<char> {
    "Import failed: "@ + msg
}

/// The log entry for a terminal download error.
pub open spec fn download_error_log_spec(msg: Seq<char>) -> Seq<char> {
    "Download error: "@ + msg
}

/// The log entry for a submitted query.
pub open spec fn executing_log_spec(query: Seq<char>) -> Seq<char> {
    "Executing: "@ + query
}

/// How the session advances on one lifecycle event, and what it asks its
/// caller to do. Progress only updates the gauge; completion records the
/// path and delegates the import; the import's terminal events settle the
/// cycle (clearing the in-progress flag) and a finished import seeds and
/// delegates the preview query; errors settle the cycle with a log entry and
/// no coordinator-side retry.
pub open spec fn event_postcondition(
    pre: App,
    evt: DownloadEvent,
    post: App,
    d: Directive,
) -> bool {
    match evt {
        DownloadEvent::Progress(p) => {
            &&& post == (App {
                download_progress: post.download_progress,
                download_status_text: post.download_status_text,
                ..pre
            })
            &&& post.download_progress == (if p > 100 {
                100u64
            } else {
                p
            })
            &&& post.download_status_text@ == "Downloading..."@
            &&& d is DoNothing
        },
        DownloadEvent::Complete(path) => {
            &&& post == (App {
                download_progress: 100u64,
                download_status_text: post.download_status_text,
                last_downloaded_path: post.last_downloaded_path,
                logs: post.logs,
                ..pre
            })
            &&& post.download_status_text@ == saved_status_spec(path@)
            &&& (post.last_downloaded_path matches Some(p) && p@ == path@)
            &&& post.logs.deep_view() == logs_after(pre.logs.deep_view(), complete_log_spec(path@))
            &&& (d matches Directive::SpawnImport(p) && p@ == path@)
        },
        DownloadEvent::ImportStarted => {
            &&& post == (App { logs: post.logs, ..pre })
            &&& post.logs.deep_view() == logs_after(
                pre.logs.deep_view(),
                "Starting auto-import to DuckDB..."@,
            )
            &&& d is DoNothing
        },
        DownloadEvent::ImportFinished(msg) => {
            &&& post == (App {
                is_downloading: false,
                sql_input: post.sql_input,
                logs: post.logs,
                ..pre
            })
            &&& post.sql_input@ == preview_query_spec()
            &&& post.logs.deep_view() == logs_after(
                logs_after(pre.logs.deep_view(), msg@),
                "Auto-executing preview query..."@,
            )
            &&& (d matches Directive::RunPreview(q) && q@ == preview_query_spec())
        },
        DownloadEvent::ImportFailed(msg) => {
            &&& post == (App { is_downloading: false, logs: post.logs, ..pre })
            &&& post.logs.deep_view() == logs_after(
                pre.logs.deep_view(),
                import_failed_log_spec(msg@),
            )
            &&& d is DoNothing
        },
        DownloadEvent::Error(msg) => {
            &&& post == (App {
                is_downloading: false,
                download_status_text: post.download_status_text,
                logs: post.logs,
                ..pre
            })
            &&& post.download_status_text@ == error_text_spec(msg@)
            &&& post.logs.deep_view() == logs_after(
                pre.logs.deep_view(),
                download_error_log_spec(msg@),
            )
            &&& d is DoNothing
        },
    }
}

/// How the session settles a delegated preview query, given the outcome of
/// the non-blocking store acquisition: no outcome means the store was busy
/// and the preview is skipped with a log entry — never awaited.
pub open spec fn preview_postcondition(
    pre: App,
    outcome: Option<Result<String, String>>,
    post: App,
) -> bool {
    match outcome {
        Option::None => {
            &&& post == (App { logs: post.logs, ..pre })
            &&& post.logs.deep_view() == logs_after(pre.logs.deep_view(), "DB busy, skip preview."@)
        },
        Option::Some(Result::Ok(out)) => post == (App { sql_output: out, ..pre }),
        Option::Some(Result::Err(e)) => {
            &&& post == (App { sql_output: post.sql_output, ..pre })
            &&& post.sql_output@ == "Error executing preview: "@ + e@
        },
    }
}

/// How the session settles a submitted query, given the outcome of the
/// non-blocking store acquisition: the intent is always logged; a busy store
/// only reports itself in the output — the reactor never waits for it.
pub open spec fn query_postcondition(
    pre: App,
    query: Seq<char>,
    outcome: Option<Result<String, String>>,
    post: App,
) -> bool {
    &&& post == (App { sql_output: post.sql_output, logs: post.logs, ..pre })
    &&& post.logs.deep_view() == logs_after(pre.logs.deep_view(), executing_log_spec(query))
    &&& (match outcome {
        Option::None => post.sql_output@ == "DB busy, cannot execute query."@,
        Option::Some(Result::Ok(out)) => post.sql_output == out,
        Option::Some(Result::Err(e)) => post.sql_output@ == error_text_spec(e@),
    })
}

impl App {
    /// Advances the session on one lifecycle event from background work.
    pub fn on_event(&mut self, evt: DownloadEvent) -> (d: Directive)
        requires
            old(self).wf(),
        ensures
            final (self).wf(),
            event_postcondition(*old(self), evt, *final (self), d),
    {
        match evt {
            DownloadEvent::Progress(p) => {
                self.download_progress = if p > 100 {
                    100
                } else {
                    p
                };
                let mut status: Vec<char> = Vec::new();
                append_str(&mut status, "Downloading...");
                self.download_status_text = chars_to_string(&status);
                Directive::DoNothing
            },
            DownloadEvent::Complete(path) => {
                self.download_progress = 100;
                let fname = crate::text::url_filename(path.as_str());
                let mut status: Vec<char> = Vec::new();
                append_str(&mut status, "Saved to \"");
                append_str(&mut status, fname.as_str());
                append_str(&mut status, "\"");
                proof {
                    assert(status@ =~= saved_status_spec(path@));
                }
                self.download_status_text = chars_to_string(&status);
                self.last_downloaded_path = Some(path.clone());
                let mut log: Vec<char> = Vec::new();
                append_str(&mut log, "Download complete: \"");
                append_str(&mut log, path.as_str());
                append_str(&mut log, "\"");
                proof {
                    assert(log@ =~= complete_log_spec(path@));
                }
                self.add_log(chars_to_string(&log));
                Directive::SpawnImport(path)
            },
            DownloadEvent::ImportStarted => {
                let mut log: Vec<char> = Vec::new();
                append_str(&mut log, "Starting auto-import to DuckDB...");
                self.add_log(chars_to_string(&log));
                Directive::DoNothing
            },
            DownloadEvent::ImportFinished(msg) => {
                self.is_downloading = false;
                self.add_log(msg);
                self.sql_input = String::from_str(preview_query());
                let mut log: Vec<char> = Vec::new();
                append_str(&mut log, "Auto-executing preview query...");
                self.add_log(chars_to_string(&log));
                Directive::RunPreview(String::from_str(preview_query()))
            },
            DownloadEvent::ImportFailed(msg) => {
                self.is_downloading = false;
                let mut log: Vec<char> = Vec::new();
                append_str(&mut log, "Import failed: ");
                append_str(&mut log, msg.as_str());
                self.add_log(chars_to_string(&log));
                Directive::DoNothing
            },
            DownloadEvent::Error(msg) => {
                self.is_downloading = false;
                let mut status: Vec<char> = Vec::new();
                append_str(&mut status, "Error: ");
                append_str(&mut status, msg.as_str());
                self.download_status_text = chars_to_string(&status);
                let mut log: Vec<char> = Vec::new();
                append_str(&mut log, "Download error: ");
                append_str(&mut log, msg.as_str());
                self.add_log(chars_to_string(&log));
                Directive::DoNothing
            },
        }
    }

    /// Settles a delegated preview query from the acquisition outcome.
    pub fn apply_preview_result(&mut self, outcome: Option<Result<String, String>>)
        requires
            old(self).wf(),
        ensures
            final (self).wf(),
            preview_postcondition(*old(self), outcome, *final (self)),
    {
        match outcome {
            None => {
                let mut log: Vec<char> = Vec::new();
                append_str(&mut log, "DB busy, skip preview.");
                self.add_log(chars_to_string(&log));
            },
            Some(Ok(out)) => {
                self.sql_output = out;
            },
            Some(Err(e)) => {
                let mut text: Vec<char> = Vec::new();
                append_str(&mut text, "Error executing preview: ");
                append_str(&mut text, e.as_str());
                self.sql_output = chars_to_string(&text);
            },
        }
    }

    /// Settles a submitted query from the acquisition outcome.
    pub fn apply_query_result(&mut self, query: &str, outcome: Option<Result<String, String>>)
        requires
            old(self).wf(),
        ensures
            final (self).wf(),
            query_postcondition(*old(self), query@, outcome, *final (self)),
    {
        let mut log: Vec<char> = Vec::new();
        append_str(&mut log, "Executing: ");
        append_str(&mut log, query);
        self.add_log(chars_to_string(&log));
        match outcome {
            None => {
                let mut text: Vec<char> = Vec::new();
                append_str(&mut text, "DB busy, cannot execute query.");
                self.sql_output = chars_to_string(&text);
            },
            Some(Ok(out)) => {
                self.sql_output = out;
            },
            Some(Err(e)) => {
                let mut text: Vec<char> = Vec::new();
                append_str(&mut text, "Error: ");
                append_str(&mut text, e.as_str());
                self.sql_output = chars_to_string(&text);
            },
        }
    }
}

/// The keys the coordinator interprets, modelled as plain values; the
/// presentation layer translates its terminal events into these.
#[derive(Clone, Copy, Debug, PartialEq, Eq)]
pub enum KeyCode {
    Char(char),
    Enter,
    Tab,
    Function(u8),
    Other,
}

/// One key press with its control modifier.
#[derive(Clone, Copy, Debug, PartialEq, Eq)]
pub struct KeyPress {
    pub code: KeyCode,
    pub ctrl: bool,
}

/// What the caller must do after a key press is interpreted: quit the
/// session, gather the selector fields and raise a download-start intent,
/// gather the query text and raise a submit-query intent, or forward the key
/// to the focused input buffer.
#[derive(Clone, Copy, Debug, PartialEq, Eq)]
pub enum KeyAction {
    Quit,
    StartDownload,
    ExecuteQuery,
    EditField(FocusField),
    EditSql,
    Handled,
}

/// Quit, from anywhere.
pub open spec fn is_quit_key(k: KeyPress) -> bool {
    k.code == KeyCode::Char('q') && k.ctrl
}

/// Switch between the two views, from anywhere; the key still reaches the
/// newly active view afterwards.
pub open spec fn is_tab_toggle_key(k: KeyPress) -> bool {
    k.code == KeyCode::Char('b') && k.ctrl
}

/// Submit the query buffer.
pub open spec fn is_query_submit_key(k: KeyPress) -> bool {
    (k.code is Enter && k.ctrl) || (k.code == KeyCode::Char('e') && k.ctrl) || k.code
        == KeyCode::Function(5)
}

/// How a key press is interpreted, after the global quit and view-switch
/// keys: in the download view, keys navigate, toggle the format, raise the
/// download-start intent or edit the focused field; in the database view,
/// the submit keys raise the query intent and everything else edits the
/// query buffer.
pub open spec fn key_postcondition(pre: App, key: KeyPress, post: App, a: KeyAction) -> bool {
    if is_quit_key(key) {
        post == pre && a is Quit
    } else {
        let tab = if is_tab_toggle_key(key) {
            toggle_tab_spec(pre.active_tab)
        } else {
            pre.active_tab
        };
        let mid = App { active_tab: tab, ..pre };
        if tab is Download {
            if key.code is Tab {
                post == (App { focus_field: next_focus_spec(pre.focus_field), ..mid }) && a
                    is Handled
            } else if key.code is Enter {
                post == mid && a is StartDownload
            } else if key.code == KeyCode::Char(' ') && pre.focus_field is Format {
                post == (App {
                    download_format: toggle_format_spec(pre.download_format),
                    ..mid
                }) && a is Handled
            } else if key.code == KeyCode::Char('q') && pre.focus_field is Format {
                post == mid && a is Quit
            } else if pre.focus_field is Format {
                post == mid && a is Handled
            } else {
                post == mid && a == KeyAction::EditField(pre.focus_field)
            }
        } else {
            if is_query_submit_key(key) {
                post == mid && a is ExecuteQuery
            } else {
                post == mid && a is EditSql
            }
        }
    }
}

impl App {
    /// Interprets one key press, advancing the view state and returning what
    /// the caller must do with the key.
    pub fn on_key(&mut self, key: KeyPress) -> (a: KeyAction)
        requires
            old(self).wf(),
        ensures
            final (self).wf(),
            key_postcondition(*old(self), key, *final (self), a),
    {
        if key.ctrl {
            if let KeyCode::Char(c) = key.code {
                if c == 'q' {
                    return KeyAction::Quit;
                }
                if c == 'b' {
                    self.active_tab = match self.active_tab {
                        ActiveTab::Download => ActiveTab::Database,
                        ActiveTab::Database => ActiveTab::Download,
                    };
                }
            }
        }
        match self.active_tab {
            ActiveTab::Download => {
                match key.code {
                    KeyCode::Tab => {
                        self.next_focus();
                        KeyAction::Handled
                    },
                    KeyCode::Enter => KeyAction::StartDownload,
                    KeyCode::Char(c) => {
                        let format_focused = match self.focus_field {
                            FocusField::Format => true,
                            _ => false,
                        };
                        if c == ' ' && format_focused {
                            self.toggle_format();
                            KeyAction::Handled
                        } else if c == 'q' && format_focused {
                            KeyAction::Quit
                        } else if format_focused {
                            KeyAction::Handled
                        } else {
                            KeyAction::EditField(self.focus_field)
                        }
                    },
                    _ => {
                        match self.focus_field {
                            FocusField::Format => KeyAction::Handled,
                            f => KeyAction::EditField(f),
                        }
                    },
                }
            },
            ActiveTab::Database => {
                let submit = (match key.code {
                    KeyCode::Enter => key.ctrl,
                    KeyCode::Char(c) => c == 'e' && key.ctrl,
                    KeyCode::Function(n) => n == 5,
                    _ => false,
                });
                if submit {
                    KeyAction::ExecuteQuery
                } else {
                    KeyAction::EditSql
                }
            },
        }
    }
}

/// A failed non-blocking store acquisition only defers the work: the session
/// records "busy" in its output or log and nothing else changes — the
/// coordinator never waits for the store. (That the acquisition itself never
/// suspends is the caller's discipline: only its immediate outcome is an
/// input here.)
pub proof fn lemma_store_busy_defers(pre: App, query: Seq<char>, post_q: App, post_p: App)
    requires
        query_postcondition(pre, query, Option::None, post_q),
        preview_postcondition(pre, Option::None, post_p),
    ensures
        post_q.sql_output@ == "DB busy, cannot execute query."@,
        post_q == (App { sql_output: post_q.sql_output, logs: post_q.logs, ..pre }),
        post_p == (App { logs: post_p.logs, ..pre }),
{
}

/// A second download-start intent while a cycle is in flight is a no-op: the
/// session state is unchanged and no URL (hence no background task) is handed
/// back.
pub proof fn lemma_second_start_is_noop(
    pre: App,
    continent: Seq<char>,
    country: Seq<char>,
    region: Seq<char>,
    post: App,
    url: Option<String>,
)
    requires
        pre.is_downloading,
        start_postcondition(pre, continent, country, region, post, url),
    ensures
        post == pre,
        url is None,
{
}

} // verus!
