//! The decision core of the terminal UI's redraw loop.
//!
//! One tick of the loop: take the most recent pending key, dispatch it
//! to navigation state or to a command, then redraw when the key or any
//! of the three change sources (status/queue watcher, history watcher,
//! volume events) fired.  The caller reads the keyboard, performs the
//! returned action, and sleeps the tick; everything decided in between
//! is here.
//!
//! Entry-index commands are guarded: a cursor that points past the
//! handed-in snapshot (the backing list may have been replaced
//! concurrently) yields no action instead of a crash.

use vstd::prelude::*;
use crate::status_watcher::{PlaybackState, QueueEntry};
use crate::history_watcher::HistoryLogEntry;
use crate::tab_elements::{TabsElements, spec_pos_up, spec_pos_jump_up, spec_pos_down,
    spec_pos_jump_down, spec_update_size};

verus! {

/// How many rows a page jump moves.
pub const PAGE_JUMP: usize = 10;

/// Index of the queue tab.
pub const QUEUE_TAB: usize = 0;

/// Index of the history tab.
pub const HISTORY_TAB: usize = 1;

/// Index of the last tab (help).
pub const LAST_TAB: usize = 3;

/// One keyboard intent, as the caller maps raw key events.
#[derive(Debug, Clone, Copy, PartialEq, Eq, Structural)]
pub enum UiKey {
    /// Leave the UI.
    Quit,
    /// Jump to the given tab.
    SelectTab(usize),
    /// One tab to the right.
    Right,
    /// One tab to the left.
    Left,
    /// Raise the volume one step.
    VolumeUp,
    /// Lower the volume one step.
    VolumeDown,
    /// Cursor one row down.
    Down,
    /// Cursor one page down.
    PageDown,
    /// Cursor one row up.
    Up,
    /// Cursor one page up.
    PageUp,
    /// Remove the selected queue entry.
    Remove,
    /// Clear the whole queue.
    Clear,
    /// Toggle play and pause.
    TogglePlay,
    /// Skip to the next entry.
    Skip,
    /// Activate the selected row.
    Activate,
    /// Anything else.
    Other,
}

/// What the caller must perform after a dispatch.
#[derive(Debug)]
pub enum UiAction {
    /// Nothing beyond a possible redraw.
    Idle,
    /// Leave the UI.
    Quit,
    /// Raise the volume by the given steps.
    VolumeUp(u32),
    /// Lower the volume by the given steps.
    VolumeDown(u32),
    /// Send the pause-playback frame.
    Pause,
    /// Send the start-playback frame.
    Start,
    /// Send the skip frame.
    Skip,
    /// Send the clear-queue frame.
    Clear,
    /// Send the delete frame for this queue id.
    Delete(u64),
    /// Send the promote frame for this queue id.
    Promote(u64),
    /// Queue this location as a new entry.
    QueueLocation(String),
}

/// The navigation state of the UI: the selected tab and one cursor per
/// list-backed view.
pub struct UiState {
    /// Selected tab, `0 ..= 3`.
    pub tab_select: usize,
    /// Cursor of the queue view.
    pub queue_tab: TabsElements,
    /// Cursor of the history view.
    pub history_tab: TabsElements,
}

/// The row index a list of `len` entries gives its cursor: the last
/// index, or zero for an empty list.
pub open spec fn spec_last_index(len: usize) -> usize {
    if len > 0 {
        (len - 1) as usize
    } else {
        0
    }
}

impl UiState {
    /// Fresh navigation state on the first tab.
    pub fn new(queue_tab: TabsElements, history_tab: TabsElements) -> (r: Self)
        ensures
            r.tab_select == QUEUE_TAB,
            r.queue_tab == queue_tab,
            r.history_tab == history_tab,
    {
        UiState { tab_select: QUEUE_TAB, queue_tab, history_tab }
    }

    /// Re-clamps both cursors to freshly observed list lengths; a
    /// shrunken list pulls its cursor back.
    pub fn refresh_sizes(&mut self, queue_len: usize, history_len: usize)
        ensures
            final(self).tab_select == old(self).tab_select,
            final(self).queue_tab
                == spec_update_size(old(self).queue_tab, spec_last_index(queue_len)),
            final(self).history_tab
                == spec_update_size(old(self).history_tab, spec_last_index(history_len)),
            final(self).queue_tab.wf(),
            final(self).history_tab.wf(),
    {
        let queue_size: usize = if queue_len > 0 {
            queue_len - 1
        } else {
            0
        };
        let history_size: usize = if history_len > 0 {
            history_len - 1
        } else {
            0
        };
        self.queue_tab.update_size(queue_size);
        self.history_tab.update_size(history_size);
    }

    /// Dispatches one key: navigation mutates the cursors and tab, a
    /// command returns the action the caller performs.  The whole
    /// transition is pinned, key by key, in the single clause below.
    pub fn handle_key(
        &mut self,
        key: UiKey,
        queue: &Vec<QueueEntry>,
        history: &Vec<HistoryLogEntry>,
        playback_state: PlaybackState,
    ) -> (r: UiAction)
        ensures
            ({
                let s0 = *old(self);
                let s1 = *final(self);
                match key {
                    UiKey::Quit => s1 == s0 && r is Quit,
                    UiKey::SelectTab(t) => r is Idle && s1.queue_tab == s0.queue_tab
                        && s1.history_tab == s0.history_tab
                        && s1.tab_select == (if t <= LAST_TAB {
                            t
                        } else {
                            s0.tab_select
                        }),
                    UiKey::Right => r is Idle && s1.queue_tab == s0.queue_tab
                        && s1.history_tab == s0.history_tab
                        && s1.tab_select == (if s0.tab_select < LAST_TAB {
                            (s0.tab_select + 1) as usize
                        } else {
                            s0.tab_select
                        }),
                    UiKey::Left => r is Idle && s1.queue_tab == s0.queue_tab
                        && s1.history_tab == s0.history_tab
                        && s1.tab_select == (if s0.tab_select > 0 {
                            (s0.tab_select - 1) as usize
                        } else {
                            s0.tab_select
                        }),
                    UiKey::VolumeUp => s1 == s0 && (r matches UiAction::VolumeUp(n) && n == 1),
                    UiKey::VolumeDown => s1 == s0 && (r matches UiAction::VolumeDown(n) && n == 1),
                    UiKey::Down => r is Idle && s1.tab_select == s0.tab_select
                        && (if s0.tab_select == QUEUE_TAB {
                            s1.queue_tab == spec_pos_down(s0.queue_tab)
                                && s1.history_tab == s0.history_tab
                        } else if s0.tab_select == HISTORY_TAB {
                            s1.queue_tab == s0.queue_tab
                                && s1.history_tab == spec_pos_down(s0.history_tab)
                        } else {
                            s1 == s0
                        }),
                    UiKey::PageDown => r is Idle && s1.tab_select == s0.tab_select
                        && (if s0.tab_select == QUEUE_TAB {
                            s1.queue_tab == spec_pos_jump_down(s0.queue_tab, PAGE_JUMP)
                                && s1.history_tab == s0.history_tab
                        } else if s0.tab_select == HISTORY_TAB {
                            s1.queue_tab == s0.queue_tab
                                && s1.history_tab == spec_pos_jump_down(s0.history_tab, PAGE_JUMP)
                        } else {
                            s1 == s0
                        }),
                    UiKey::Up => r is Idle && s1.tab_select == s0.tab_select
                        && (if s0.tab_select == QUEUE_TAB {
                            s1.queue_tab == spec_pos_up(s0.queue_tab)
                                && s1.history_tab == s0.history_tab
                        } else if s0.tab_select == HISTORY_TAB {
                            s1.queue_tab == s0.queue_tab
                                && s1.history_tab == spec_pos_up(s0.history_tab)
                        } else {
                            s1 == s0
                        }),
                    UiKey::PageUp => r is Idle && s1.tab_select == s0.tab_select
                        && (if s0.tab_select == QUEUE_TAB {
                            s1.queue_tab == spec_pos_jump_up(s0.queue_tab, PAGE_JUMP)
                                && s1.history_tab == s0.history_tab
                        } else if s0.tab_select == HISTORY_TAB {
                            s1.queue_tab == s0.queue_tab
                                && s1.history_tab == spec_pos_jump_up(s0.history_tab, PAGE_JUMP)
                        } else {
                            s1 == s0
                        }),
                    UiKey::Remove => s1 == s0 && (if s0.tab_select == QUEUE_TAB
                        && s0.queue_tab.table_list_size != 0
                        && s0.queue_tab.table_list_pos < queue@.len() {
                        (r matches UiAction::Delete(id)
                            && id == queue@[s0.queue_tab.table_list_pos as int].id)
                    } else {
                        r is Idle
                    }),
                    UiKey::Clear => s1 == s0 && (if s0.tab_select == QUEUE_TAB {
                        r is Clear
                    } else {
                        r is Idle
                    }),
                    UiKey::TogglePlay => s1 == s0 && r == (if playback_state
                        == PlaybackState::Playing {
                        UiAction::Pause
                    } else {
                        UiAction::Start
                    }),
                    UiKey::Skip => s1 == s0 && r is Skip,
                    UiKey::Activate => s1 == s0 && (if s0.tab_select == QUEUE_TAB {
                        if s0.queue_tab.table_list_size != 0
                            && s0.queue_tab.table_list_pos < queue@.len() {
                            (r matches UiAction::Promote(id)
                                && id == queue@[s0.queue_tab.table_list_pos as int].id)
                        } else {
                            r is Idle
                        }
                    } else if s0.tab_select == HISTORY_TAB {
                        if s0.history_tab.table_list_size != 0
                            && s0.history_tab.table_list_pos < history@.len() {
                            (r matches UiAction::QueueLocation(loc) && loc@
                                == history@[s0.history_tab.table_list_pos as int].location@)
                        } else {
                            r is Idle
                        }
                    } else {
                        r is Idle
                    }),
                    UiKey::Other => s1 == s0 && r is Idle,
                }
            }),
    {
        match key {
            UiKey::Quit => UiAction::Quit,
            UiKey::SelectTab(t) => {
                if t <= LAST_TAB {
                    self.tab_select = t;
                }
                UiAction::Idle
            }
            UiKey::Right => {
                if self.tab_select < LAST_TAB {
                    self.tab_select = self.tab_select + 1;
                }
                UiAction::Idle
            }
            UiKey::Left => {
                if self.tab_select > 0 {
                    self.tab_select = self.tab_select - 1;
                }
                UiAction::Idle
            }
            UiKey::VolumeUp => UiAction::VolumeUp(1),
            UiKey::VolumeDown => UiAction::VolumeDown(1),
            UiKey::Down => {
                if self.tab_select == QUEUE_TAB {
                    self.queue_tab.pos_down();
                } else if self.tab_select == HISTORY_TAB {
                    self.history_tab.pos_down();
                }
                UiAction::Idle
            }
            UiKey::PageDown => {
                if self.tab_select == QUEUE_TAB {
                    self.queue_tab.pos_jump_down(PAGE_JUMP);
                } else if self.tab_select == HISTORY_TAB {
                    self.history_tab.pos_jump_down(PAGE_JUMP);
                }
                UiAction::Idle
            }
            UiKey::Up => {
                if self.tab_select == QUEUE_TAB {
                    self.queue_tab.pos_up();
                } else if self.tab_select == HISTORY_TAB {
                    self.history_tab.pos_up();
                }
                UiAction::Idle
            }
            UiKey::PageUp => {
                if self.tab_select == QUEUE_TAB {
                    self.queue_tab.pos_jump_up(PAGE_JUMP);
                } else if self.tab_select == HISTORY_TAB {
                    self.history_tab.pos_jump_up(PAGE_JUMP);
                }
                UiAction::Idle
            }
            UiKey::Remove => {
                if self.tab_select == QUEUE_TAB && self.queue_tab.table_list_size != 0
                    && self.queue_tab.table_list_pos < queue.len() {
                    UiAction::Delete(queue[self.queue_tab.table_list_pos].id)
                } else {
                    UiAction::Idle
                }
            }
            UiKey::Clear => {
                if self.tab_select == QUEUE_TAB {
                    UiAction::Clear
                } else {
                    UiAction::Idle
                }
            }
            UiKey::TogglePlay => {
                match playback_state {
                    PlaybackState::Playing => UiAction::Pause,
                    _ => UiAction::Start,
                }
            }
            UiKey::Skip => UiAction::Skip,
            UiKey::Activate => {
                if self.tab_select == QUEUE_TAB {
                    if self.queue_tab.table_list_size != 0
                        && self.queue_tab.table_list_pos < queue.len() {
                        UiAction::Promote(queue[self.queue_tab.table_list_pos].id)
                    } else {
                        UiAction::Idle
                    }
                } else if self.tab_select == HISTORY_TAB {
                    if self.history_tab.table_list_size != 0
                        && self.history_tab.table_list_pos < history.len() {
                        UiAction::QueueLocation(
                            history[self.history_tab.table_list_pos].location.clone())
                    } else {
                        UiAction::Idle
                    }
                } else {
                    UiAction::Idle
                }
            }
            UiKey::Other => UiAction::Idle,
        }
    }
}

/// The redraw rule of one tick: redraw exactly when a key was
/// dispatched or any of the three change sources fired.
pub fn merge_dirty(key_processed: bool, status_changed: bool, history_changed: bool,
    volume_event: bool) -> (r: bool)
    ensures
        r == (key_processed || status_changed || history_changed || volume_event),
{
    key_processed || status_changed || history_changed || volume_event
}

} // verus!
