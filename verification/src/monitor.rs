//! The change monitor: what to do about each change of the clipboard.
//!
//! The monitor itself reads nothing and waits for nothing. Its caller waits
//! for the system to report a change and hands each report, and then the
//! outcome of each thing the monitor asks for, to [`ChangeMonitor::step`];
//! the monitor answers with the next thing to do. One change runs so:
//!
//! 1. The change is reported. If the change was announced as the program's
//!    own write, it is dropped, the announcement is used up, and nothing is
//!    read. Otherwise the monitor asks who has the focus.
//! 2. The name of the focused application is reported. If the application
//!    is one that handles secrets, the change is dropped. Otherwise the
//!    monitor asks for the clipboard's text.
//! 3. The text is reported. If there is none, the monitor asks for the
//!    clipboard's picture.
//! 4. The picture is reported. If there is none either, the change is
//!    dropped.
//! 5. Once there is a text or a picture to keep, and only then, the monitor
//!    asks for the icon of the application. When the icon is reported, the
//!    content is taken into the history.

use vstd::prelude::*;
use vstd::utf8::encode_utf8;
use crate::codec::{image_bytes, stored_image, stored_text, text_bytes, RawImage};
use crate::matching::{contains_folded, contains_ignoring_case};
use crate::record::ContentTypes;
use crate::store::{upsert_outcome, HistoryStore, StoreError};

verus! {

/// The application name `name` holds the entry `entry` of the list of
/// applications that handle secrets, up to the case of ASCII letters.
pub open spec fn names_entry(name: Seq<char>, entry: Seq<char>) -> bool {
    contains_folded(encode_utf8(name), encode_utf8(entry))
}

/// The application handles secrets: what is copied while it has the focus
/// is not recorded.
pub open spec fn sensitive_source(name: Seq<char>) -> bool {
    ||| names_entry(name, "Passwords"@)
    ||| names_entry(name, "Keychain Access"@)
    ||| names_entry(name, "Bitwarden"@)
}

/// Decides whether the application handles secrets.
pub fn is_sensitive_source(app_name: &str) -> (r: bool)
    ensures
        r == sensitive_source(app_name@),
{
    let name = app_name.as_bytes();
    contains_ignoring_case(name, "Passwords".as_bytes()) || contains_ignoring_case(
        name,
        "Keychain Access".as_bytes(),
    ) || contains_ignoring_case(name, "Bitwarden".as_bytes())
}

/// How far the monitor has come with the change at hand.
#[derive(Clone, Copy, Debug, PartialEq, Eq, Structural)]
pub enum MonitorPhase {
    /// No change is at hand.
    Waiting,
    /// A change was reported; the focused application is being asked for.
    AwaitingFocus,
    /// The application is known; the clipboard's text is being asked for.
    AwaitingText,
    /// There was no text; the clipboard's picture is being asked for.
    AwaitingImage,
    /// There is content to keep; the application's icon is being asked for.
    AwaitingIcon,
}

/// What the caller reports to the monitor.
#[derive(Debug)]
pub enum MonitorEvent {
    /// The system says that the clipboard has changed.
    ClipboardChanged,
    /// The name of the application that has the focus, or a stand-in such
    /// as `Unknown`.
    FocusResolved(String),
    /// The clipboard's text, or `None` where it holds none or cannot be read.
    TextRead(Option<String>),
    /// The clipboard's picture, or `None` where it holds none or cannot be read.
    ImageRead(Option<RawImage>),
    /// The path of the icon file of the application that has the focus;
    /// empty where there is none.
    IconResolved(String),
}

/// What the monitor asks its caller to do next.
#[derive(Clone, Copy, Debug, PartialEq, Eq)]
pub enum MonitorAction {
    /// Nothing: wait for the next change.
    Wait,
    /// Find out which application has the focus, and report its name.
    ResolveFocus,
    /// Read the clipboard as text, and report it.
    ReadText,
    /// Read the clipboard as a picture, and report it.
    ReadImage,
    /// Find the icon of the application that has the focus, and report its
    /// path.
    ResolveIcon,
    /// The history has changed: the capture stands under this id. Tell
    /// whoever shows the history, then wait for the next change.
    Changed(i64),
    /// The capture could not be taken in. Report the failure, then wait for
    /// the next change.
    Failed(StoreError),
}

/// The monitor between two reports.
pub struct ChangeMonitor {
    internal_write: bool,
    phase: MonitorPhase,
    app_name: String,
    content_type: ContentTypes,
    content: Vec<u8>,
}

/// What a [`ChangeMonitor`] is to the contracts.
pub struct MonitorView {
    /// The next change has been announced as the program's own write.
    pub internal_write: bool,
    pub phase: MonitorPhase,
    /// The application that had the focus at the change at hand.
    pub app_name: Seq<char>,
    /// The kind of the content that waits to be kept.
    pub content_type: ContentTypes,
    /// The bytes that wait to be kept; none while nothing waits.
    pub content: Seq<u8>,
}

impl View for ChangeMonitor {
    type V = MonitorView;

    closed spec fn view(&self) -> MonitorView {
        MonitorView {
            internal_write: self.internal_write,
            phase: self.phase,
            app_name: self.app_name@,
            content_type: self.content_type,
            content: self.content@,
        }
    }
}

/// The report brings the monitor to write to the store: it is the icon
/// that the monitor was asking for.
pub open spec fn writes(before: MonitorView, event: MonitorEvent) -> bool {
    event is IconResolved && before.phase == MonitorPhase::AwaitingIcon
}

/// The monitor after a report. A report that the monitor was not asking
/// for leaves it as it is; a reported change always starts anew.
pub open spec fn next_state(before: MonitorView, event: MonitorEvent) -> MonitorView {
    match event {
        MonitorEvent::ClipboardChanged => MonitorView {
            internal_write: false,
            phase: if before.internal_write {
                MonitorPhase::Waiting
            } else {
                MonitorPhase::AwaitingFocus
            },
            content: Seq::empty(),
            ..before
        },
        MonitorEvent::FocusResolved(name) => if before.phase != MonitorPhase::AwaitingFocus {
            before
        } else if sensitive_source(name@) {
            MonitorView { phase: MonitorPhase::Waiting, ..before }
        } else {
            MonitorView { phase: MonitorPhase::AwaitingText, app_name: name@, ..before }
        },
        MonitorEvent::TextRead(text) => if before.phase != MonitorPhase::AwaitingText {
            before
        } else {
            match text {
                Some(text) => MonitorView {
                    phase: MonitorPhase::AwaitingIcon,
                    content_type: ContentTypes::TEXT,
                    content: stored_text(text@),
                    ..before
                },
                None => MonitorView { phase: MonitorPhase::AwaitingImage, ..before },
            }
        },
        MonitorEvent::ImageRead(image) => if before.phase != MonitorPhase::AwaitingImage {
            before
        } else {
            match image {
                Some(image) => MonitorView {
                    phase: MonitorPhase::AwaitingIcon,
                    content_type: ContentTypes::IMAGE,
                    content: stored_image(image.width, image.height, image.bytes@),
                    ..before
                },
                None => MonitorView { phase: MonitorPhase::Waiting, ..before },
            }
        },
        MonitorEvent::IconResolved(_) => if before.phase != MonitorPhase::AwaitingIcon {
            before
        } else {
            MonitorView { phase: MonitorPhase::Waiting, content: Seq::empty(), ..before }
        },
    }
}

/// What the monitor asks for after a report that does not bring it to
/// write: the next thing to find out where the change goes on, else to
/// wait.
pub open spec fn next_request(before: MonitorView, event: MonitorEvent) -> MonitorAction {
    match event {
        MonitorEvent::ClipboardChanged => if before.internal_write {
            MonitorAction::Wait
        } else {
            MonitorAction::ResolveFocus
        },
        MonitorEvent::FocusResolved(name) => if before.phase == MonitorPhase::AwaitingFocus
            && !sensitive_source(name@) {
            MonitorAction::ReadText
        } else {
            MonitorAction::Wait
        },
        MonitorEvent::TextRead(text) => if before.phase != MonitorPhase::AwaitingText {
            MonitorAction::Wait
        } else if text is Some {
            MonitorAction::ResolveIcon
        } else {
            MonitorAction::ReadImage
        },
        MonitorEvent::ImageRead(image) => if before.phase == MonitorPhase::AwaitingImage
            && image is Some {
            MonitorAction::ResolveIcon
        } else {
            MonitorAction::Wait
        },
        MonitorEvent::IconResolved(_) => MonitorAction::Wait,
    }
}

/// What the store returned, as the action reports it.
pub open spec fn reported(action: MonitorAction) -> Result<i64, StoreError> {
    match action {
        MonitorAction::Changed(id) => Ok(id),
        MonitorAction::Failed(e) => Err(e),
        _ => Err(StoreError::NotFound),
    }
}

/// The store is as it was.
pub open spec fn untouched(store_before: HistoryStore, store_after: HistoryStore) -> bool {
    store_after@ == store_before@ && store_after.last_id() == store_before.last_id()
}

/// One step of the monitor: what becomes of the monitor and of the store,
/// and which action is returned.
///
/// Only the report of the icon that the monitor was asking for touches the
/// store, and it does so as one capture, made at `now`, of the content
/// that waits in the monitor, with the application noted at the change and
/// the icon reported.
pub open spec fn stepped(
    before: MonitorView,
    store_before: HistoryStore,
    event: MonitorEvent,
    now: i64,
    after: MonitorView,
    store_after: HistoryStore,
    action: MonitorAction,
) -> bool {
    &&& after == next_state(before, event)
    &&& match event {
        MonitorEvent::IconResolved(icon_path) => if before.phase == MonitorPhase::AwaitingIcon {
            &&& action is Changed || action is Failed
            &&& upsert_outcome(
                store_before,
                store_after,
                reported(action),
                before.content_type,
                before.content,
                before.app_name,
                icon_path@,
                now,
            )
        } else {
            action == MonitorAction::Wait && untouched(store_before, store_after)
        },
        _ => action == next_request(before, event) && untouched(store_before, store_after),
    }
}

impl ChangeMonitor {
    /// A monitor with no change at hand, no write announced and nothing
    /// waiting to be kept.
    pub fn new() -> (monitor: Self)
        ensures
            monitor@ == (MonitorView {
                internal_write: false,
                phase: MonitorPhase::Waiting,
                app_name: Seq::<char>::empty(),
                content_type: ContentTypes::TEXT,
                content: Seq::<u8>::empty(),
            }),
    {
        ChangeMonitor {
            internal_write: false,
            phase: MonitorPhase::Waiting,
            app_name: String::new(),
            content_type: ContentTypes::TEXT,
            content: Vec::new(),
        }
    }

    /// Announces that the program itself is about to write to the
    /// clipboard: the next change reported will be dropped.
    pub fn set_internal_write_flag(&mut self)
        ensures
            final(self)@ == (MonitorView { internal_write: true, ..old(self)@ }),
    {
        self.internal_write = true;
    }

    /// Whether a write of the program's own is announced and not yet used up.
    pub fn internal_write_pending(&self) -> (pending: bool)
        ensures
            pending == self@.internal_write,
    {
        self.internal_write
    }

    /// How far the monitor has come with the change at hand.
    pub fn phase(&self) -> (phase: MonitorPhase)
        ensures
            phase == self@.phase,
    {
        self.phase
    }

    /// Takes a report and says what to do next. `now` is the instant of the
    /// report; it becomes the timestamp of what the report brings the
    /// monitor to write.
    pub fn step(&mut self, store: &mut HistoryStore, event: MonitorEvent, now: i64) -> (action:
        MonitorAction)
        requires
            old(store).wf(),
        ensures
            final(store).wf(),
            stepped(old(self)@, *old(store), event, now, final(self)@, *final(store), action),
    {
        match event {
            MonitorEvent::ClipboardChanged => {
                let announced = self.internal_write;
                self.internal_write = false;
                self.content = Vec::new();
                if announced {
                    self.phase = MonitorPhase::Waiting;
                    MonitorAction::Wait
                } else {
                    self.phase = MonitorPhase::AwaitingFocus;
                    MonitorAction::ResolveFocus
                }
            },
            MonitorEvent::FocusResolved(name) => {
                match self.phase {
                    MonitorPhase::AwaitingFocus => {
                        if is_sensitive_source(name.as_str()) {
                            self.phase = MonitorPhase::Waiting;
                            MonitorAction::Wait
                        } else {
                            self.app_name = name;
                            self.phase = MonitorPhase::AwaitingText;
                            MonitorAction::ReadText
                        }
                    },
                    _ => MonitorAction::Wait,
                }
            },
            MonitorEvent::TextRead(text) => {
                match self.phase {
                    MonitorPhase::AwaitingText => {
                        match text {
                            Some(text) => {
                                self.content_type = ContentTypes::TEXT;
                                self.content = text_bytes(text.as_str());
                                self.phase = MonitorPhase::AwaitingIcon;
                                MonitorAction::ResolveIcon
                            },
                            None => {
                                self.phase = MonitorPhase::AwaitingImage;
                                MonitorAction::ReadImage
                            },
                        }
                    },
                    _ => MonitorAction::Wait,
                }
            },
            MonitorEvent::ImageRead(image) => {
                match self.phase {
                    MonitorPhase::AwaitingImage => {
                        match image {
                            Some(image) => {
                                self.content_type = ContentTypes::IMAGE;
                                self.content = image_bytes(&image);
                                self.phase = MonitorPhase::AwaitingIcon;
                                MonitorAction::ResolveIcon
                            },
                            None => {
                                self.phase = MonitorPhase::Waiting;
                                MonitorAction::Wait
                            },
                        }
                    },
                    _ => MonitorAction::Wait,
                }
            },
            MonitorEvent::IconResolved(icon_path) => {
                match self.phase {
                    MonitorPhase::AwaitingIcon => {
                        let mut content: Vec<u8> = Vec::new();
                        core::mem::swap(&mut self.content, &mut content);
                        self.phase = MonitorPhase::Waiting;
                        match store.upsert(
                            self.content_type,
                            content,
                            self.app_name.clone(),
                            icon_path,
                            now,
                        ) {
                            Ok(id) => MonitorAction::Changed(id),
                            Err(e) => MonitorAction::Failed(e),
                        }
                    },
                    _ => MonitorAction::Wait,
                }
            },
        }
    }
}

} // verus!
