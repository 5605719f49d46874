//! Decisions of the Windows input backend: the pointer flags and button change of an
//! injected pen or touch contact, the mouse flags of a mouse event, and the set of
//! touch contacts in flight.

use vstd::prelude::*;
use crate::assoc::{entry_of, keys_unique, lemma_entry_at, lemma_entry_none, lemma_entry_push, lemma_entry_remove, lemma_entry_some, lemma_entry_update};
use crate::protocol::{Button, PointerEventType};

verus! {

pub const POINTER_FLAG_INRANGE: u32 = 0x0000_0002;
pub const POINTER_FLAG_INCONTACT: u32 = 0x0000_0004;
pub const POINTER_FLAG_PRIMARY: u32 = 0x0000_2000;
pub const POINTER_FLAG_CANCELED: u32 = 0x0000_8000;
pub const POINTER_FLAG_DOWN: u32 = 0x0001_0000;
pub const POINTER_FLAG_UPDATE: u32 = 0x0002_0000;
pub const POINTER_FLAG_UP: u32 = 0x0004_0000;

pub const POINTER_CHANGE_NONE: i32 = 0;
pub const POINTER_CHANGE_FIRSTBUTTON_DOWN: i32 = 1;
pub const POINTER_CHANGE_SECONDBUTTON_DOWN: i32 = 3;
pub const POINTER_CHANGE_THIRDBUTTON_DOWN: i32 = 5;

pub const MOUSEEVENTF_LEFTDOWN: u32 = 0x0002;
pub const MOUSEEVENTF_LEFTUP: u32 = 0x0004;
pub const MOUSEEVENTF_RIGHTDOWN: u32 = 0x0008;
pub const MOUSEEVENTF_RIGHTUP: u32 = 0x0010;
pub const MOUSEEVENTF_MIDDLEDOWN: u32 = 0x0020;
pub const MOUSEEVENTF_MIDDLEUP: u32 = 0x0040;

/// The pointer flags an event type starts from.
pub open spec fn base_pointer_flags(t: PointerEventType) -> u32 {
    match t {
        PointerEventType::DOWN => POINTER_FLAG_INRANGE | POINTER_FLAG_INCONTACT | POINTER_FLAG_DOWN,
        PointerEventType::MOVE | PointerEventType::OVER | PointerEventType::ENTER => POINTER_FLAG_INRANGE
            | POINTER_FLAG_UPDATE,
        PointerEventType::UP => POINTER_FLAG_UP,
        PointerEventType::CANCEL | PointerEventType::LEAVE | PointerEventType::OUT => POINTER_FLAG_INRANGE
            | POINTER_FLAG_UPDATE | POINTER_FLAG_CANCELED,
    }
}

/// The flags and button change of an injected pen or touch contact: the event type's
/// flags, in contact while the primary button is held, marked primary for the
/// primary pointer; the change names the held button.
pub open spec fn spec_pointer_flags(t: PointerEventType, buttons: Button, is_primary: bool) -> (u32, i32) {
    let f0 = base_pointer_flags(t);
    let f1 = if buttons == Button::PRIMARY { f0 | POINTER_FLAG_INCONTACT } else { f0 };
    let f2 = if is_primary { f1 | POINTER_FLAG_PRIMARY } else { f1 };
    let change = match buttons {
        Button::PRIMARY => POINTER_CHANGE_FIRSTBUTTON_DOWN,
        Button::SECONDARY => POINTER_CHANGE_SECONDBUTTON_DOWN,
        Button::AUXILARY => POINTER_CHANGE_THIRDBUTTON_DOWN,
        _ => POINTER_CHANGE_NONE,
    };
    (f2, change)
}

/// Computes the flags and button change of an injected contact.
pub fn pointer_flags(t: PointerEventType, buttons: Button, is_primary: bool) -> (r: (u32, i32))
    ensures
        r == spec_pointer_flags(t, buttons, is_primary),
{
    let mut flags: u32 = match t {
        PointerEventType::DOWN => POINTER_FLAG_INRANGE | POINTER_FLAG_INCONTACT | POINTER_FLAG_DOWN,
        PointerEventType::MOVE | PointerEventType::OVER | PointerEventType::ENTER => POINTER_FLAG_INRANGE
            | POINTER_FLAG_UPDATE,
        PointerEventType::UP => POINTER_FLAG_UP,
        PointerEventType::CANCEL | PointerEventType::LEAVE | PointerEventType::OUT => POINTER_FLAG_INRANGE
            | POINTER_FLAG_UPDATE | POINTER_FLAG_CANCELED,
    };
    let change = match buttons {
        Button::PRIMARY => {
            flags = flags | POINTER_FLAG_INCONTACT;
            POINTER_CHANGE_FIRSTBUTTON_DOWN
        },
        Button::SECONDARY => POINTER_CHANGE_SECONDBUTTON_DOWN,
        Button::AUXILARY => POINTER_CHANGE_THIRDBUTTON_DOWN,
        _ => POINTER_CHANGE_NONE,
    };
    if is_primary {
        flags = flags | POINTER_FLAG_PRIMARY;
    }
    (flags, change)
}

/// The mouse flags of a mouse event: a button press on down (by the held buttons),
/// a release on up (by the changed button), a left release when the pointer is
/// cancelled or leaves, nothing on moves (which only place the cursor).
pub open spec fn spec_mouse_flags(t: PointerEventType, buttons: Button, button: Button) -> u32 {
    match t {
        PointerEventType::DOWN => match buttons {
            Button::PRIMARY => MOUSEEVENTF_LEFTDOWN,
            Button::SECONDARY => MOUSEEVENTF_RIGHTDOWN,
            Button::AUXILARY => MOUSEEVENTF_MIDDLEDOWN,
            _ => 0,
        },
        PointerEventType::UP => match button {
            Button::PRIMARY => MOUSEEVENTF_LEFTUP,
            Button::SECONDARY => MOUSEEVENTF_RIGHTUP,
            Button::AUXILARY => MOUSEEVENTF_MIDDLEUP,
            _ => 0,
        },
        PointerEventType::MOVE | PointerEventType::OVER | PointerEventType::ENTER => 0,
        PointerEventType::CANCEL | PointerEventType::LEAVE | PointerEventType::OUT => MOUSEEVENTF_LEFTUP,
    }
}

/// Computes the mouse flags of a mouse event.
pub fn mouse_flags(t: PointerEventType, buttons: Button, button: Button) -> (r: u32)
    ensures
        r == spec_mouse_flags(t, buttons, button),
{
    match t {
        PointerEventType::DOWN => match buttons {
            Button::PRIMARY => MOUSEEVENTF_LEFTDOWN,
            Button::SECONDARY => MOUSEEVENTF_RIGHTDOWN,
            Button::AUXILARY => MOUSEEVENTF_MIDDLEDOWN,
            _ => 0,
        },
        PointerEventType::UP => match button {
            Button::PRIMARY => MOUSEEVENTF_LEFTUP,
            Button::SECONDARY => MOUSEEVENTF_RIGHTUP,
            Button::AUXILARY => MOUSEEVENTF_MIDDLEUP,
            _ => 0,
        },
        PointerEventType::MOVE | PointerEventType::OVER | PointerEventType::ENTER => 0,
        PointerEventType::CANCEL | PointerEventType::LEAVE | PointerEventType::OUT => MOUSEEVENTF_LEFTUP,
    }
}

/// The touch contacts in flight, by pointer id, each with the contact last injected
/// for it.
pub struct TouchContacts<T> {
    entries: Vec<(i64, T)>,
}

impl<T: Copy> TouchContacts<T> {
    pub closed spec fn contacts(&self) -> Seq<(i64, T)> {
        self.entries@
    }

    /// The contact held for a pointer.
    pub open spec fn contact(&self, id: i64) -> Option<T> {
        entry_of(self.contacts(), id)
    }

    pub open spec fn wf(&self) -> bool {
        keys_unique(self.contacts())
    }

    pub fn new() -> (r: TouchContacts<T>)
        ensures
            r.wf(),
            r.contacts().len() == 0,
    {
        TouchContacts { entries: Vec::new() }
    }

    fn find(&self, id: i64) -> (r: Option<usize>)
        requires
            self.wf(),
        ensures
            r matches Some(k) ==> k < self.contacts().len() && self.contacts()[k as int].0 == id,
            r is None ==> forall|k: int| 0 <= k < self.contacts().len() ==> self.contacts()[k].0 != id,
    {
        let mut i: usize = 0;
        while i < self.entries.len()
            invariant
                i <= self.entries@.len(),
                forall|k: int| 0 <= k < i ==> self.entries@[k].0 != id,
            decreases self.entries@.len() - i,
        {
            if self.entries[i].0 == id {
                return Some(i);
            }
            i = i + 1;
        }
        None
    }

    /// Records the contact of an event and returns every contact to inject together;
    /// a contact that lifts, is cancelled or leaves is dropped after that.
    pub fn update(&mut self, id: i64, contact: T, t: PointerEventType) -> (r: Vec<T>)
        requires
            old(self).wf(),
        ensures
            final(self).wf(),
            r@.len() == if old(self).contact(id) is Some { old(self).contacts().len() } else { old(self).contacts().len() + 1 },
            r@.contains(contact),
            forall|u: i64| u != id && (#[trigger] old(self).contact(u)) is Some ==> r@.contains(old(self).contact(u).unwrap()),
            t.spec_is_contact() ==> final(self).contact(id) == Some(contact),
            !t.spec_is_contact() ==> final(self).contact(id) is None,
            forall|u: i64| u != id ==> final(self).contact(u) == old(self).contact(u),
    {
        let ghost e0 = self.entries@;
        let found = self.find(id);
        let idx = match found {
            Some(k) => {
                proof {
                    lemma_entry_at(e0, id, k as int);
                }
                self.entries.set(k, (id, contact));
                proof {
                    assert(self.entries@ =~= e0.update(k as int, (e0[k as int].0, contact)));
                    assert forall|a: int| 0 <= a < e0.len() implies #[trigger] self.entries@[a].0 == e0[a].0 by {}
                    assert forall|u: i64| u != id implies entry_of(self.entries@, u) == entry_of(e0, u) by {
                        lemma_entry_update(e0, k as int, contact, u);
                    }
                    lemma_entry_at(self.entries@, id, k as int);
                    assert(keys_unique(self.entries@));
                }
                k
            },
            None => {
                proof {
                    lemma_entry_none(e0, id);
                }
                self.entries.push((id, contact));
                proof {
                    assert(self.entries@ =~= e0.push((id, contact)));
                    assert forall|a: int, b: int| 0 <= a < b < self.entries@.len() implies self.entries@[a].0
                        != self.entries@[b].0 by {
                        if b == e0.len() {
                            assert(self.entries@[a] == e0[a]);
                        }
                    }
                    assert forall|u: i64| true implies entry_of(self.entries@, u)
                        == if u == id { Some(contact) } else { entry_of(e0, u) } by {
                        lemma_entry_push(e0, id, contact, u);
                    }
                }
                self.entries.len() - 1
            },
        };
        let ghost e1 = self.entries@;
        let mut out: Vec<T> = Vec::new();
        let mut j: usize = 0;
        while j < self.entries.len()
            invariant
                j <= self.entries@.len(),
                self.entries@ == e1,
                out@ == e1.take(j as int).map_values(|e: (i64, T)| e.1),
            decreases self.entries@.len() - j,
        {
            out.push(self.entries[j].1);
            assert(e1.take(j + 1).map_values(|e: (i64, T)| e.1) =~= e1.take(j as int).map_values(|e: (i64, T)| e.1).push(e1[j as int].1));
            j = j + 1;
        }
        assert(e1.take(j as int) =~= e1);
        proof {
            assert(out@[idx as int] == contact);
            assert forall|u: i64| u != id && (#[trigger] entry_of(e0, u)) is Some implies out@.contains(entry_of(e0, u).unwrap()) by {
                let c = entry_of(e0, u).unwrap();
                assert(entry_of(e1, u) == Some(c));
                lemma_entry_some(e1, u);
                let k = choose|k: int| 0 <= k < e1.len() && e1[k].0 == u && e1[k].1 == entry_of(e1, u).unwrap();
                assert(out@[k] == c);
            }
        }
        if !t.is_contact() {
            self.entries.remove(idx);
            proof {
                assert forall|u: i64| true implies entry_of(self.entries@, u)
                    == if u == e1[idx as int].0 { None } else { entry_of(e1, u) } by {
                    lemma_entry_remove(e1, idx as int, u);
                }
            }
        }
        out
    }
}

/// Law: on Windows a mouse button is pressed and released with its own flags: the
/// left button with MOUSEEVENTF_LEFTDOWN (0x0002) and MOUSEEVENTF_LEFTUP (0x0004),
/// the right button with RIGHTDOWN (0x0008) and RIGHTUP (0x0010), the middle button
/// with MIDDLEDOWN (0x0020) and MIDDLEUP (0x0040). The release of a button is its
/// press flag doubled, and the three buttons never share a flag.
pub proof fn lemma_mouse_button_flags(held: Button, changed: Button)
    ensures
        spec_mouse_flags(PointerEventType::DOWN, Button::PRIMARY, changed) == 0x0002u32,
        spec_mouse_flags(PointerEventType::DOWN, Button::SECONDARY, changed) == 0x0008u32,
        spec_mouse_flags(PointerEventType::DOWN, Button::AUXILARY, changed) == 0x0020u32,
        spec_mouse_flags(PointerEventType::UP, held, Button::PRIMARY) == 0x0004u32,
        spec_mouse_flags(PointerEventType::UP, held, Button::SECONDARY) == 0x0010u32,
        spec_mouse_flags(PointerEventType::UP, held, Button::AUXILARY) == 0x0040u32,
        (held == Button::PRIMARY || held == Button::SECONDARY || held == Button::AUXILARY) ==>
            spec_mouse_flags(PointerEventType::UP, changed, held) == 2 * spec_mouse_flags(PointerEventType::DOWN, held, changed),
        (held == Button::PRIMARY || held == Button::SECONDARY || held == Button::AUXILARY)
            && (changed == Button::PRIMARY || changed == Button::SECONDARY || changed == Button::AUXILARY) && held != changed
            ==> spec_mouse_flags(PointerEventType::DOWN, held, held) != spec_mouse_flags(PointerEventType::DOWN, changed, changed)
                && spec_mouse_flags(PointerEventType::UP, held, held) != spec_mouse_flags(PointerEventType::UP, changed, changed),
{
}

} // verus!

