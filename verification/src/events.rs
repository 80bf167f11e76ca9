//! Key dispatch: one step of the controller. A key event against the
//! current (input mode, focus, popup) triple either mutates the session
//! or yields an action for the caller to perform — quitting, refreshing
//! the listing, testing a connection, or starting the confirmed
//! download. An active popup always pre-empts base dispatch.

use vstd::prelude::*;
use crate::models::{InputMode, FocusField, PopupState};
use crate::browser::{
    SnapshotBrowser, begin_edit_transition, commit_transition, move_next_transition,
    move_prev_transition,
};
use crate::text::{push_char, pop_char};

verus! {

/// A key event, as the terminal reports it.
#[derive(Clone, Copy, PartialEq, Eq, Structural, Debug)]
pub enum Key {
    Char(char),
    Enter,
    Esc,
    Tab,
    Up,
    Down,
    Backspace,
    Other,
}

/// What the caller must do after a dispatch step.
#[derive(Clone, Copy, PartialEq, Eq, Structural, Debug)]
pub enum Action {
    Stay,
    Quit,
    ReloadSnapshots,
    TestStore,
    TestDatabase,
    BeginDownload,
}

/// The focus shortcut bound to a character in normal mode, if any.
pub open spec fn shortcut_target(c: char) -> Option<FocusField> {
    if c == 'b' {
        Some(FocusField::Bucket)
    } else if c == 'R' {
        Some(FocusField::Region)
    } else if c == 'x' {
        Some(FocusField::Prefix)
    } else if c == 'E' {
        Some(FocusField::EndpointUrl)
    } else if c == 'a' {
        Some(FocusField::AccessKeyId)
    } else if c == 's' {
        Some(FocusField::SecretAccessKey)
    } else if c == 'h' {
        Some(FocusField::PgHost)
    } else if c == 'p' {
        Some(FocusField::PgPort)
    } else if c == 'u' {
        Some(FocusField::PgUsername)
    } else if c == 'f' {
        Some(FocusField::PgPassword)
    } else if c == 'l' {
        Some(FocusField::PgSsl)
    } else if c == 'n' {
        Some(FocusField::PgDbName)
    } else {
        None
    }
}

/// Characters with a normal-mode binding of their own.
pub open spec fn bound_char(c: char) -> bool {
    c == 'q' || c == 'e' || c == 'r' || c == 't' || c == 'j' || c == 'k' || shortcut_target(
        c,
    ) is Some
}

impl SnapshotBrowser {
    /// Editing mode is only ever entered on an editable field.
    pub open spec fn edit_focus_ok(self) -> bool {
        self.input_mode == InputMode::Editing ==> self.focus != FocusField::SnapshotList
    }

    /// Dispatches one key event. While a popup is active only its own
    /// accept, decline, and dismiss keys and the global quit key are
    /// honored; every base-state key is suppressed. The transfer
    /// overlays are driven by the download pipeline, not from here.
    pub fn handle_key(&mut self, key: Key) -> (r: Action)
        requires
            old(self).wf(),
            old(self).edit_focus_ok(),
        ensures
            final(self).wf(),
            final(self).edit_focus_ok(),
            // the global quit key: everywhere but inside an edit buffer
            r == Action::Quit <==> (key == Key::Char('q') && !(old(self).popup_state is Hidden
                && old(self).input_mode == InputMode::Editing)),
            r == Action::Quit ==> *final(self) == *old(self),
            // an active overlay pre-empts base dispatch entirely
            !(old(self).popup_state is Hidden) ==> *final(self) == (SnapshotBrowser {
                popup_state: final(self).popup_state,
                ..*old(self)
            }),
            !(old(self).popup_state is Hidden) ==> (r == Action::Quit || r == Action::Stay || (r
                == Action::BeginDownload && key == Key::Char('y') && old(self).popup_state matches PopupState::ConfirmRestore(_))),
            // the restore confirmation: accept, decline, dismiss
            old(self).popup_state matches PopupState::ConfirmRestore(_) ==> {
                &&& key == Key::Char('y') ==> final(self).popup_state == old(self).popup_state && r
                    == Action::BeginDownload
                &&& (key == Key::Char('n') || key == Key::Esc) ==> final(self).popup_state
                    is Hidden
                &&& !(key == Key::Char('y') || key == Key::Char('n') || key == Key::Esc) ==> final(self).popup_state == old(self).popup_state
            },
            // reports and errors: dismissed with escape, otherwise kept
            (old(self).popup_state matches PopupState::Error(_) || old(self).popup_state
                matches PopupState::Success(_) || old(self).popup_state
                matches PopupState::TestS3Result(_) || old(self).popup_state
                matches PopupState::TestPgResult(_)) ==> {
                &&& key == Key::Esc ==> final(self).popup_state is Hidden
                &&& key != Key::Esc ==> final(self).popup_state == old(self).popup_state
            },
            // the transfer overlays answer only to the download pipeline
            (old(self).popup_state matches PopupState::Downloading(_, _) || old(self).popup_state
                matches PopupState::ConfirmCancel(_, _)) ==> final(self).popup_state == old(self).popup_state,
            // base dispatch, normal mode
            old(self).popup_state is Hidden && old(self).input_mode == InputMode::Normal ==> {
                &&& key == Key::Tab ==> *final(self) == (SnapshotBrowser {
                    focus: old(self).focus.next_spec(),
                    ..*old(self)
                }) && r == Action::Stay
                &&& key == Key::Char('e') ==> begin_edit_transition(*old(self), *final(self)) && r
                    == Action::Stay
                &&& (key == Key::Down || key == Key::Char('j')) ==> r == Action::Stay && (if old(self).focus == FocusField::SnapshotList {
                    move_next_transition(*old(self), *final(self))
                } else {
                    *final(self) == *old(self)
                })
                &&& (key == Key::Up || key == Key::Char('k')) ==> r == Action::Stay && (if old(self).focus == FocusField::SnapshotList {
                    move_prev_transition(*old(self), *final(self))
                } else {
                    *final(self) == *old(self)
                })
                &&& key == Key::Char('r') ==> *final(self) == *old(self) && r
                    == Action::ReloadSnapshots
                &&& key == Key::Char('t') ==> *final(self) == *old(self) && r == (if old(self).focus.is_store_field() {
                    Action::TestStore
                } else if old(self).focus.is_db_field() {
                    Action::TestDatabase
                } else {
                    Action::Stay
                })
                &&& key == Key::Enter ==> r == Action::Stay && (if old(self).focus
                    == FocusField::SnapshotList && old(self).selected_idx is Some {
                    (old(self).selected_idx matches Some(i) && final(self).popup_state
                        == PopupState::ConfirmRestore(old(self).snapshots@[i as int]) && *final(self) == SnapshotBrowser { popup_state: final(self).popup_state, ..*old(self) })
                } else {
                    *final(self) == *old(self)
                })
                &&& (key matches Key::Char(c) && shortcut_target(c) is Some) ==> *final(self)
                    == (SnapshotBrowser {
                    focus: shortcut_target((key->Char_0))->Some_0,
                    ..*old(self)
                }) && r == Action::Stay
                &&& (key matches Key::Char(c) && !bound_char(c)) ==> *final(self) == *old(self)
                    && r == Action::Stay
                &&& (key == Key::Backspace || key == Key::Esc || key == Key::Other) ==> *final(self) == *old(self) && r == Action::Stay
            },
            // base dispatch, editing mode
            old(self).popup_state is Hidden && old(self).input_mode == InputMode::Editing ==> {
                &&& key == Key::Enter ==> commit_transition(*old(self), *final(self)) && r == (
                if old(self).focus.is_store_field() {
                    Action::ReloadSnapshots
                } else {
                    Action::Stay
                })
                &&& key == Key::Esc ==> final(self).input_buffer@.len() == 0 && *final(self)
                    == (SnapshotBrowser {
                    input_mode: InputMode::Normal,
                    input_buffer: final(self).input_buffer,
                    ..*old(self)
                }) && r == Action::Stay
                &&& key matches Key::Char(c) ==> final(self).input_buffer@ == old(self).input_buffer@.push(c) && *final(self) == (SnapshotBrowser {
                    input_buffer: final(self).input_buffer,
                    ..*old(self)
                }) && r == Action::Stay
                &&& key == Key::Backspace ==> final(self).input_buffer@ == (if old(self).input_buffer@.len() > 0 {
                    old(self).input_buffer@.drop_last()
                } else {
                    old(self).input_buffer@
                }) && *final(self) == (SnapshotBrowser {
                    input_buffer: final(self).input_buffer,
                    ..*old(self)
                }) && r == Action::Stay
                &&& (key == Key::Tab || key == Key::Up || key == Key::Down || key == Key::Other)
                    ==> *final(self) == *old(self) && r == Action::Stay
            },
    {
        if !(matches!(self.popup_state, PopupState::Hidden)) {
            match key {
                Key::Char(c) => {
                    if c == 'q' {
                        Action::Quit
                    } else if c == 'y' {
                        if matches!(self.popup_state, PopupState::ConfirmRestore(_)) {
                            Action::BeginDownload
                        } else {
                            Action::Stay
                        }
                    } else if c == 'n' {
                        if matches!(self.popup_state, PopupState::ConfirmRestore(_)) {
                            self.popup_state = PopupState::Hidden;
                        }
                        Action::Stay
                    } else {
                        Action::Stay
                    }
                },
                Key::Esc => {
                    if matches!(
                        self.popup_state,
                        PopupState::ConfirmRestore(_) | PopupState::Error(_) | PopupState::Success(
                            _,
                        ) | PopupState::TestS3Result(_) | PopupState::TestPgResult(_)
                    ) {
                        self.popup_state = PopupState::Hidden;
                    }
                    Action::Stay
                },
                _ => Action::Stay,
            }
        } else {
            match self.input_mode {
                InputMode::Normal => match key {
                    Key::Tab => {
                        self.advance_focus();
                        Action::Stay
                    },
                    Key::Enter => {
                        if self.focus == FocusField::SnapshotList {
                            let picked = match self.selected_snapshot() {
                                Some(s) => Some(s.clone()),
                                None => None,
                            };
                            match picked {
                                Some(s) => {
                                    self.popup_state = PopupState::ConfirmRestore(s);
                                },
                                None => {},
                            }
                        }
                        Action::Stay
                    },
                    Key::Down => {
                        if self.focus == FocusField::SnapshotList {
                            self.next();
                        }
                        Action::Stay
                    },
                    Key::Up => {
                        if self.focus == FocusField::SnapshotList {
                            self.previous();
                        }
                        Action::Stay
                    },
                    Key::Char(c) => {
                        if c == 'q' {
                            Action::Quit
                        } else if c == 'e' {
                            self.begin_edit();
                            Action::Stay
                        } else if c == 'r' {
                            Action::ReloadSnapshots
                        } else if c == 't' {
                            if self.focus.is_store() {
                                Action::TestStore
                            } else if self.focus.is_db() {
                                Action::TestDatabase
                            } else {
                                Action::Stay
                            }
                        } else if c == 'j' {
                            if self.focus == FocusField::SnapshotList {
                                self.next();
                            }
                            Action::Stay
                        } else if c == 'k' {
                            if self.focus == FocusField::SnapshotList {
                                self.previous();
                            }
                            Action::Stay
                        } else if c == 'b' {
                            self.focus = FocusField::Bucket;
                            Action::Stay
                        } else if c == 'R' {
                            self.focus = FocusField::Region;
                            Action::Stay
                        } else if c == 'x' {
                            self.focus = FocusField::Prefix;
                            Action::Stay
                        } else if c == 'E' {
                            self.focus = FocusField::EndpointUrl;
                            Action::Stay
                        } else if c == 'a' {
                            self.focus = FocusField::AccessKeyId;
                            Action::Stay
                        } else if c == 's' {
                            self.focus = FocusField::SecretAccessKey;
                            Action::Stay
                        } else if c == 'h' {
                            self.focus = FocusField::PgHost;
                            Action::Stay
                        } else if c == 'p' {
                            self.focus = FocusField::PgPort;
                            Action::Stay
                        } else if c == 'u' {
                            self.focus = FocusField::PgUsername;
                            Action::Stay
                        } else if c == 'f' {
                            self.focus = FocusField::PgPassword;
                            Action::Stay
                        } else if c == 'l' {
                            self.focus = FocusField::PgSsl;
                            Action::Stay
                        } else if c == 'n' {
                            self.focus = FocusField::PgDbName;
                            Action::Stay
                        } else {
                            Action::Stay
                        }
                    },
                    _ => Action::Stay,
                },
                InputMode::Editing => match key {
                    Key::Enter => {
                        let reload = self.commit_edit();
                        if reload {
                            Action::ReloadSnapshots
                        } else {
                            Action::Stay
                        }
                    },
                    Key::Esc => {
                        self.cancel_edit();
                        Action::Stay
                    },
                    Key::Char(c) => {
                        push_char(&mut self.input_buffer, c);
                        Action::Stay
                    },
                    Key::Backspace => {
                        let _popped = pop_char(&mut self.input_buffer);
                        Action::Stay
                    },
                    _ => Action::Stay,
                },
            }
        }
    }
}

} // verus!
