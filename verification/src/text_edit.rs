//! Text buffer and selection of one remote text-input client.
//!
//! The buffer is a sequence of Unicode codepoints; the selection is a pair of
//! codepoint offsets, `selection_base` (the anchor) and `selection_extent`
//! (the active endpoint that cursor movement drags).  Both are either set or
//! unset together in every state this module produces.  The remote client may
//! hand over stale offsets, so every editing operation first clamps both
//! endpoints into the current buffer before acting, and writes the clamped
//! values back.

use vstd::prelude::*;

verus! {

/// The largest buffer length the editing operations accept, chosen so that a
/// codepoint offset always fits the signed 64-bit wire representation.
pub const MAX_TEXT_LEN: u64 = 0x7fff_ffff_ffff_ffff;

/// Text and selection of the remote client, as exchanged with it.
pub struct EditingState {
    pub text: Vec<char>,
    pub selection_base: Option<i64>,
    pub selection_extent: Option<i64>,
}

/// Mathematical model of an `EditingState`.
pub struct EditModel {
    pub text: Seq<char>,
    pub base: Option<int>,
    pub extent: Option<int>,
}

impl View for EditingState {
    type V = EditModel;

    open spec fn view(&self) -> EditModel {
        EditModel {
            text: self.text@,
            base: match self.selection_base {
                Some(b) => Some(b as int),
                None => None,
            },
            extent: match self.selection_extent {
                Some(e) => Some(e as int),
                None => None,
            },
        }
    }
}

/// Base and extent are both set or both unset — never mixed.
pub open spec fn sel_paired(m: EditModel) -> bool {
    m.base is Some <==> m.extent is Some
}

/// Both selection endpoints are present and non-negative; only then may an
/// editing operation touch the buffer.
pub open spec fn sel_editable(m: EditModel) -> bool {
    &&& m.base matches Some(b) && b >= 0
    &&& m.extent matches Some(e) && e >= 0
}

/// The buffer is small enough for every offset to fit the wire type.
pub open spec fn text_fits(m: EditModel) -> bool {
    m.text.len() <= MAX_TEXT_LEN as int
}

pub open spec fn clamp_idx(i: int, len: int) -> int {
    if i < 0 {
        0
    } else if i > len {
        len
    } else {
        i
    }
}

/// The anchor endpoint, clamped into the buffer.
pub open spec fn base_idx(m: EditModel) -> int {
    clamp_idx(m.base->0, m.text.len() as int)
}

/// The active endpoint, clamped into the buffer.
pub open spec fn extent_idx(m: EditModel) -> int {
    clamp_idx(m.extent->0, m.text.len() as int)
}

/// Lower bound of the effective selection range.
pub open spec fn sel_start(m: EditModel) -> int {
    if base_idx(m) <= extent_idx(m) {
        base_idx(m)
    } else {
        extent_idx(m)
    }
}

/// Upper bound of the effective selection range.
pub open spec fn sel_end(m: EditModel) -> int {
    if base_idx(m) <= extent_idx(m) {
        extent_idx(m)
    } else {
        base_idx(m)
    }
}

pub open spec fn with_sel(text: Seq<char>, base: int, extent: int) -> EditModel {
    EditModel { text, base: Some(base), extent: Some(extent) }
}

/// The state an operation leaves when it does not move anything: the buffer
/// kept, both endpoints rewritten to their clamped values.
pub open spec fn normalized(m: EditModel) -> EditModel {
    with_sel(m.text, base_idx(m), extent_idx(m))
}

/// Arrow left: a non-empty selection collapses to its near (lower) edge
/// unless Shift extends; otherwise the active endpoint steps one codepoint
/// left, and without Shift the anchor follows it.
pub open spec fn move_left_spec(m: EditModel, shift: bool) -> EditModel {
    if !shift && sel_start(m) != sel_end(m) {
        with_sel(m.text, sel_start(m), sel_start(m))
    } else if extent_idx(m) > 0 {
        if shift {
            with_sel(m.text, base_idx(m), extent_idx(m) - 1)
        } else {
            with_sel(m.text, extent_idx(m) - 1, extent_idx(m) - 1)
        }
    } else {
        normalized(m)
    }
}

/// Arrow right: mirror image of `move_left_spec`, toward the upper edge.
pub open spec fn move_right_spec(m: EditModel, shift: bool) -> EditModel {
    if !shift && sel_start(m) != sel_end(m) {
        with_sel(m.text, sel_end(m), sel_end(m))
    } else if extent_idx(m) < m.text.len() {
        if shift {
            with_sel(m.text, base_idx(m), extent_idx(m) + 1)
        } else {
            with_sel(m.text, extent_idx(m) + 1, extent_idx(m) + 1)
        }
    } else {
        normalized(m)
    }
}

/// Home: the active endpoint jumps to the buffer start; without Shift the
/// anchor collapses onto it.
pub open spec fn move_home_spec(m: EditModel, shift: bool) -> EditModel {
    if shift {
        with_sel(m.text, base_idx(m), 0)
    } else {
        with_sel(m.text, 0, 0)
    }
}

/// End: the active endpoint jumps to the buffer end; without Shift the
/// anchor collapses onto it.
pub open spec fn move_end_spec(m: EditModel, shift: bool) -> EditModel {
    if shift {
        with_sel(m.text, base_idx(m), m.text.len() as int)
    } else {
        with_sel(m.text, m.text.len() as int, m.text.len() as int)
    }
}

pub open spec fn spliced(text: Seq<char>, start: int, end: int, ins: Seq<char>) -> Seq<char> {
    text.subrange(0, start) + ins + text.subrange(end, text.len() as int)
}

/// The largest buffer an insertion may produce: bounded by the wire type and
/// by what a vector on this machine can address.
pub open spec fn buf_cap() -> int {
    if usize::MAX <= MAX_TEXT_LEN {
        usize::MAX as int
    } else {
        MAX_TEXT_LEN as int
    }
}

/// Replace the effective selection with `ins` and collapse the cursor to just
/// after it.  An insertion that would push the buffer past `MAX_TEXT_LEN`
/// changes nothing but the clamping.
pub open spec fn insert_spec(m: EditModel, ins: Seq<char>) -> EditModel {
    let s = sel_start(m);
    let e = sel_end(m);
    if m.text.len() - (e - s) + ins.len() > buf_cap() {
        normalized(m)
    } else {
        with_sel(spliced(m.text, s, e, ins), s + ins.len(), s + ins.len())
    }
}

/// Backspace: with a collapsed cursor, delete the codepoint before it (a
/// no-op at the buffer start); with a range selected, delete the range.
pub open spec fn backspace_spec(m: EditModel) -> EditModel {
    let s = sel_start(m);
    let e = sel_end(m);
    if s == e {
        if s > 0 {
            with_sel(spliced(m.text, s - 1, s, Seq::empty()), s - 1, s - 1)
        } else {
            normalized(m)
        }
    } else {
        with_sel(spliced(m.text, s, e, Seq::empty()), s, s)
    }
}

/// Delete: with a collapsed cursor, delete the codepoint after it (a no-op
/// at the buffer end); with a range selected, delete the range.
pub open spec fn delete_spec(m: EditModel) -> EditModel {
    let s = sel_start(m);
    let e = sel_end(m);
    if s == e {
        if s < m.text.len() {
            with_sel(spliced(m.text, s, s + 1, Seq::empty()), s, s)
        } else {
            normalized(m)
        }
    } else {
        with_sel(spliced(m.text, s, e, Seq::empty()), s, s)
    }
}

/// Select-all: anchor at the start, active endpoint at the end.
pub open spec fn select_all_spec(m: EditModel) -> EditModel {
    with_sel(m.text, 0, m.text.len() as int)
}

/// The codepoints of the effective selection range.
pub open spec fn selection_spec(m: EditModel) -> Seq<char> {
    m.text.subrange(sel_start(m), sel_end(m))
}

impl EditingState {
    /// An empty buffer with no selection, the state before any client spoke.
    pub fn empty() -> (r: EditingState)
        ensures
            r@ == (EditModel { text: Seq::<char>::empty(), base: None, extent: None }),
    {
        let r = EditingState { text: Vec::new(), selection_base: None, selection_extent: None };
        proof {
            assert(r@.text =~= Seq::<char>::empty());
        }
        r
    }

    /// A deep copy, used when a snapshot of the state is sent to the client.
    pub fn duplicate(&self) -> (r: EditingState)
        ensures
            r@ == self@,
    {
        let r = EditingState {
            text: clone_chars(&self.text),
            selection_base: self.selection_base,
            selection_extent: self.selection_extent,
        };
        r
    }

    pub fn move_left(&mut self, shift: bool)
        requires
            sel_editable(old(self)@),
            text_fits(old(self)@),
        ensures
            final(self)@ == move_left_spec(old(self)@, shift),
    {
        let len = self.text.len();
        let b = clamp_to_len(self.selection_base.unwrap(), len);
        let e = clamp_to_len(self.selection_extent.unwrap(), len);
        let s = if b <= e { b } else { e };
        let t = if b <= e { e } else { b };
        if !shift && s != t {
            self.set_sel(s, s);
        } else if e > 0 {
            if shift {
                self.set_sel(b, e - 1);
            } else {
                self.set_sel(e - 1, e - 1);
            }
        } else {
            self.set_sel(b, e);
        }
    }

    pub fn move_right(&mut self, shift: bool)
        requires
            sel_editable(old(self)@),
            text_fits(old(self)@),
        ensures
            final(self)@ == move_right_spec(old(self)@, shift),
    {
        let len = self.text.len();
        let b = clamp_to_len(self.selection_base.unwrap(), len);
        let e = clamp_to_len(self.selection_extent.unwrap(), len);
        let s = if b <= e { b } else { e };
        let t = if b <= e { e } else { b };
        if !shift && s != t {
            self.set_sel(t, t);
        } else if e < len {
            if shift {
                self.set_sel(b, e + 1);
            } else {
                self.set_sel(e + 1, e + 1);
            }
        } else {
            self.set_sel(b, e);
        }
    }

    pub fn move_home(&mut self, shift: bool)
        requires
            sel_editable(old(self)@),
            text_fits(old(self)@),
        ensures
            final(self)@ == move_home_spec(old(self)@, shift),
    {
        let len = self.text.len();
        let b = clamp_to_len(self.selection_base.unwrap(), len);
        if shift {
            self.set_sel(b, 0);
        } else {
            self.set_sel(0, 0);
        }
    }

    pub fn move_end(&mut self, shift: bool)
        requires
            sel_editable(old(self)@),
            text_fits(old(self)@),
        ensures
            final(self)@ == move_end_spec(old(self)@, shift),
    {
        let len = self.text.len();
        let b = clamp_to_len(self.selection_base.unwrap(), len);
        if shift {
            self.set_sel(b, len);
        } else {
            self.set_sel(len, len);
        }
    }

    pub fn select_all(&mut self)
        requires
            sel_editable(old(self)@),
            text_fits(old(self)@),
        ensures
            final(self)@ == select_all_spec(old(self)@),
    {
        let len = self.text.len();
        self.set_sel(0, len);
    }

    pub fn insert(&mut self, ins: &Vec<char>)
        requires
            sel_editable(old(self)@),
            text_fits(old(self)@),
        ensures
            final(self)@ == insert_spec(old(self)@, ins@),
    {
        let len = self.text.len();
        let b = clamp_to_len(self.selection_base.unwrap(), len);
        let e = clamp_to_len(self.selection_extent.unwrap(), len);
        let s = if b <= e { b } else { e };
        let t = if b <= e { e } else { b };
        let kept = len - (t - s);
        let cap: u64 = if (usize::MAX as u64) < MAX_TEXT_LEN {
            usize::MAX as u64
        } else {
            MAX_TEXT_LEN
        };
        if ins.len() as u64 > cap - kept as u64 {
            self.set_sel(b, e);
        } else {
            self.text = splice(&self.text, s, t, ins);
            self.set_sel(s + ins.len(), s + ins.len());
        }
    }

    pub fn backspace(&mut self)
        requires
            sel_editable(old(self)@),
            text_fits(old(self)@),
        ensures
            final(self)@ == backspace_spec(old(self)@),
    {
        let len = self.text.len();
        let b = clamp_to_len(self.selection_base.unwrap(), len);
        let e = clamp_to_len(self.selection_extent.unwrap(), len);
        let s = if b <= e { b } else { e };
        let t = if b <= e { e } else { b };
        let empty: Vec<char> = Vec::new();
        if s == t {
            if s > 0 {
                self.text = splice(&self.text, s - 1, s, &empty);
                self.set_sel(s - 1, s - 1);
            } else {
                self.set_sel(b, e);
            }
        } else {
            self.text = splice(&self.text, s, t, &empty);
            self.set_sel(s, s);
        }
    }

    pub fn delete_forward(&mut self)
        requires
            sel_editable(old(self)@),
            text_fits(old(self)@),
        ensures
            final(self)@ == delete_spec(old(self)@),
    {
        let len = self.text.len();
        let b = clamp_to_len(self.selection_base.unwrap(), len);
        let e = clamp_to_len(self.selection_extent.unwrap(), len);
        let s = if b <= e { b } else { e };
        let t = if b <= e { e } else { b };
        let empty: Vec<char> = Vec::new();
        if s == t {
            if s < len {
                self.text = splice(&self.text, s, s + 1, &empty);
                self.set_sel(s, s);
            } else {
                self.set_sel(b, e);
            }
        } else {
            self.text = splice(&self.text, s, t, &empty);
            self.set_sel(s, s);
        }
    }

    /// Whether the effective selection range is non-empty.
    pub fn has_selection(&self) -> (r: bool)
        requires
            sel_editable(self@),
            text_fits(self@),
        ensures
            r == (sel_start(self@) != sel_end(self@)),
    {
        let len = self.text.len();
        let b = clamp_to_len(self.selection_base.unwrap(), len);
        let e = clamp_to_len(self.selection_extent.unwrap(), len);
        b != e
    }

    /// The codepoints currently selected, copied out for the clipboard.
    pub fn selection(&self) -> (r: Vec<char>)
        requires
            sel_editable(self@),
            text_fits(self@),
        ensures
            r@ == selection_spec(self@),
    {
        let len = self.text.len();
        let b = clamp_to_len(self.selection_base.unwrap(), len);
        let e = clamp_to_len(self.selection_extent.unwrap(), len);
        let s = if b <= e { b } else { e };
        let t = if b <= e { e } else { b };
        let mut r: Vec<char> = Vec::new();
        let mut i: usize = s;
        while i < t
            invariant
                s <= i <= t <= self.text@.len(),
                r@ == self.text@.subrange(s as int, i as int),
            decreases t - i,
        {
            r.push(self.text[i]);
            proof {
                assert(self.text@.subrange(s as int, i + 1 as int) =~= self.text@.subrange(
                    s as int,
                    i as int,
                ).push(self.text@[i as int]));
            }
            i = i + 1;
        }
        r
    }

    /// Write a clamped selection back; both endpoints end up present.
    fn set_sel(&mut self, base: usize, extent: usize)
        requires
            base <= MAX_TEXT_LEN,
            extent <= MAX_TEXT_LEN,
        ensures
            final(self)@ == (EditModel {
                text: old(self)@.text,
                base: Some(base as int),
                extent: Some(extent as int),
            }),
    {
        self.selection_base = Some(base as i64);
        self.selection_extent = Some(extent as i64);
    }
}

/// Clamp a wire offset into `[0, len]`.
fn clamp_to_len(v: i64, len: usize) -> (r: usize)
    requires
        len <= MAX_TEXT_LEN,
    ensures
        r as int == clamp_idx(v as int, len as int),
        r <= len,
{
    if v < 0 {
        0
    } else if v as u64 > len as u64 {
        len
    } else {
        v as usize
    }
}

/// An element-for-element copy of a codepoint buffer.
pub fn clone_chars(v: &Vec<char>) -> (r: Vec<char>)
    ensures
        r@ == v@,
{
    let mut r: Vec<char> = Vec::new();
    let mut i: usize = 0;
    while i < v.len()
        invariant
            i <= v@.len(),
            r@ == v@.subrange(0, i as int),
        decreases v@.len() - i,
    {
        r.push(v[i]);
        proof {
            assert(v@.subrange(0, i + 1 as int) =~= v@.subrange(0, i as int).push(v@[i as int]));
        }
        i = i + 1;
    }
    proof {
        assert(v@.subrange(0, v@.len() as int) =~= v@);
    }
    r
}

/// `text` with `[start, end)` replaced by `ins`.
fn splice(text: &Vec<char>, start: usize, end: usize, ins: &Vec<char>) -> (r: Vec<char>)
    requires
        start <= end,
        end <= text@.len(),
        text@.len() - (end - start) + ins@.len() <= usize::MAX,
    ensures
        r@ == spliced(text@, start as int, end as int, ins@),
{
    let mut r: Vec<char> = Vec::new();
    let mut i: usize = 0;
    while i < start
        invariant
            i <= start <= text@.len(),
            r@ == text@.subrange(0, i as int),
        decreases start - i,
    {
        r.push(text[i]);
        proof {
            assert(text@.subrange(0, i + 1 as int) =~= text@.subrange(0, i as int).push(
                text@[i as int],
            ));
        }
        i = i + 1;
    }
    let mut j: usize = 0;
    while j < ins.len()
        invariant
            j <= ins@.len(),
            start <= text@.len(),
            r@ == text@.subrange(0, start as int) + ins@.subrange(0, j as int),
        decreases ins@.len() - j,
    {
        r.push(ins[j]);
        proof {
            assert(ins@.subrange(0, j + 1 as int) =~= ins@.subrange(0, j as int).push(
                ins@[j as int],
            ));
            assert(text@.subrange(0, start as int) + ins@.subrange(0, j + 1 as int)
                =~= (text@.subrange(0, start as int) + ins@.subrange(0, j as int)).push(
                ins@[j as int],
            ));
        }
        j = j + 1;
    }
    let mut k: usize = end;
    while k < text.len()
        invariant
            end <= k <= text@.len(),
            start <= end,
            j == ins@.len(),
            r@ == text@.subrange(0, start as int) + ins@.subrange(0, j as int) + text@.subrange(
                end as int,
                k as int,
            ),
        decreases text@.len() - k,
    {
        r.push(text[k]);
        proof {
            assert(text@.subrange(end as int, k + 1 as int) =~= text@.subrange(
                end as int,
                k as int,
            ).push(text@[k as int]));
            assert(text@.subrange(0, start as int) + ins@.subrange(0, j as int) + text@.subrange(
                end as int,
                k + 1 as int,
            ) =~= (text@.subrange(0, start as int) + ins@.subrange(0, j as int) + text@.subrange(
                end as int,
                k as int,
            )).push(text@[k as int]));
        }
        k = k + 1;
    }
    proof {
        assert(ins@.subrange(0, ins@.len() as int) =~= ins@);
        assert(r@ =~= spliced(text@, start as int, end as int, ins@));
    }
    r
}

/// Every editing operation leaves base and extent both set: the selection is
/// never mixed after a mutation.
pub proof fn lemma_ops_keep_selection_paired(m: EditModel, shift: bool, ins: Seq<char>)
    ensures
        sel_paired(move_left_spec(m, shift)),
        sel_paired(move_right_spec(m, shift)),
        sel_paired(move_home_spec(m, shift)),
        sel_paired(move_end_spec(m, shift)),
        sel_paired(insert_spec(m, ins)),
        sel_paired(backspace_spec(m)),
        sel_paired(delete_spec(m)),
        sel_paired(select_all_spec(m)),
{
}

} // verus!
