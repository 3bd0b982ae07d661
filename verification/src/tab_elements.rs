//! The list-cursor state of one navigable UI view.
//!
//! A cursor is a pair of a position and a size; every navigation and
//! every size update keeps the position within `0 ..= size`.

use vstd::prelude::*;
use crate::SmError;

verus! {

/// Cursor state of one list-backed tab: the selected row and the index
/// of the last selectable row.
pub struct TabsElements {
    /// Title shown on the tab.
    pub display_name: String,
    /// Selected row, never past `table_list_size`.
    pub table_list_pos: usize,
    /// Index of the last selectable row.
    pub table_list_size: usize,
}

/// The cursor after one step up.
pub open spec fn spec_pos_up(t: TabsElements) -> TabsElements {
    TabsElements {
        table_list_pos: if t.table_list_pos > 0 {
            (t.table_list_pos - 1) as usize
        } else {
            0
        },
        ..t
    }
}

/// The cursor after a jump of `num` up.
pub open spec fn spec_pos_jump_up(t: TabsElements, num: usize) -> TabsElements {
    TabsElements {
        table_list_pos: if t.table_list_pos > num {
            (t.table_list_pos - num) as usize
        } else {
            0
        },
        ..t
    }
}

/// The cursor after one step down.
pub open spec fn spec_pos_down(t: TabsElements) -> TabsElements {
    TabsElements {
        table_list_pos: if t.table_list_pos < t.table_list_size {
            (t.table_list_pos + 1) as usize
        } else {
            t.table_list_pos
        },
        ..t
    }
}

/// The cursor after a jump of `num` down.
pub open spec fn spec_pos_jump_down(t: TabsElements, num: usize) -> TabsElements {
    TabsElements {
        table_list_pos: if t.table_list_pos < t.table_list_size
            && t.table_list_pos + num < t.table_list_size {
            (t.table_list_pos + num) as usize
        } else {
            t.table_list_size
        },
        ..t
    }
}

/// The cursor after the list size changed.
pub open spec fn spec_update_size(t: TabsElements, size: usize) -> TabsElements {
    TabsElements {
        table_list_size: size,
        table_list_pos: if t.table_list_pos > size {
            size
        } else {
            t.table_list_pos
        },
        ..t
    }
}

impl TabsElements {
    /// The cursor invariant: the position never points past the end.
    pub open spec fn wf(self) -> bool {
        self.table_list_pos <= self.table_list_size
    }

    /// A fresh cursor at the top of an empty list.
    pub fn new(display_name: &str) -> (r: Result<Self, SmError>)
        ensures
            r is Ok,
            r->Ok_0.display_name@ == display_name@,
            r->Ok_0.table_list_pos == 0,
            r->Ok_0.table_list_size == 0,
            r->Ok_0.wf(),
    {
        Ok(TabsElements {
            display_name: display_name.to_owned(),
            table_list_pos: 0,
            table_list_size: 0,
        })
    }

    /// Moves one row up, stopping at the top.
    pub fn pos_up(&mut self)
        ensures
            *final(self) == spec_pos_up(*old(self)),
            old(self).wf() ==> final(self).wf(),
    {
        if self.table_list_pos > 0 {
            self.table_list_pos = self.table_list_pos - 1;
        }
    }

    /// Jumps `num` rows up, stopping at the top.
    pub fn pos_jump_up(&mut self, num: usize)
        ensures
            *final(self) == spec_pos_jump_up(*old(self), num),
            old(self).wf() ==> final(self).wf(),
    {
        if self.table_list_pos > 0 && self.table_list_pos > num {
            self.table_list_pos = self.table_list_pos - num;
        } else {
            self.table_list_pos = 0;
        }
    }

    /// Moves one row down, stopping at the end.
    pub fn pos_down(&mut self)
        ensures
            *final(self) == spec_pos_down(*old(self)),
            old(self).wf() ==> final(self).wf(),
    {
        if self.table_list_pos < self.table_list_size {
            self.table_list_pos = self.table_list_pos + 1;
        }
    }

    /// Jumps `num` rows down, stopping at the end.
    pub fn pos_jump_down(&mut self, num: usize)
        ensures
            *final(self) == spec_pos_jump_down(*old(self), num),
            final(self).wf(),
    {
        let headroom = if num <= self.table_list_size {
            self.table_list_size - num
        } else {
            0
        };
        if self.table_list_pos < self.table_list_size && self.table_list_pos < headroom {
            self.table_list_pos = self.table_list_pos + num;
        } else {
            self.table_list_pos = self.table_list_size;
        }
    }

    /// Replaces the list size, pulling the cursor back if the list shrank.
    pub fn update_size(&mut self, size: usize)
        ensures
            *final(self) == spec_update_size(*old(self), size),
            final(self).wf(),
    {
        self.table_list_size = size;
        if self.table_list_pos > self.table_list_size {
            self.table_list_pos = self.table_list_size;
        }
    }
}

} // verus!
