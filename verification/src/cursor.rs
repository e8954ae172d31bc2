//! The selection cursor: an index into the visible subset, or nothing
//! where the subset is empty.

use vstd::prelude::*;

verus! {

/// Whether `selected` is a cursor for a list of `len` items: an index into
/// the list, or nothing exactly where the list is empty.
pub open spec fn cursor_fits(selected: Option<usize>, len: nat) -> bool {
    match selected {
        Some(i) => i < len,
        None => len == 0,
    }
}

/// The cursor on the first of `len` items.
pub open spec fn first_or_none(len: nat) -> Option<usize> {
    if len == 0 {
        None
    } else {
        Some(0)
    }
}

/// The cursor after the list has changed to one of `len` items: it stays
/// where it is if it still points into the list, and goes to the first
/// item, or to nothing in an empty list, if it does not.
pub open spec fn revalidated(selected: Option<usize>, len: nat) -> Option<usize> {
    match selected {
        Some(i) if i < len => Some(i),
        _ => first_or_none(len),
    }
}

/// The cursor one step down a list of `len` items. From the last item it
/// wraps round to the first. In an empty list it stays as it is.
pub open spec fn advanced(selected: Option<usize>, len: nat) -> Option<usize> {
    if len == 0 {
        selected
    } else {
        match selected {
            Some(i) if i + 1 < len => Some((i + 1) as usize),
            _ => Some(0),
        }
    }
}

/// The cursor one step up a list of `len` items. From the first item it
/// wraps round to the last. In an empty list it stays as it is.
pub open spec fn retreated(selected: Option<usize>, len: nat) -> Option<usize> {
    if len == 0 {
        selected
    } else {
        match selected {
            Some(i) if i == 0 => Some((len - 1) as usize),
            Some(i) => Some((i - 1) as usize),
            None => Some(0),
        }
    }
}

/// Places the cursor on the first of `len` items.
pub fn first(len: usize) -> (r: Option<usize>)
    ensures
        r == first_or_none(len as nat),
        cursor_fits(r, len as nat),
{
    if len == 0 {
        None
    } else {
        Some(0)
    }
}

/// Brings the cursor back into a list of `len` items.
pub fn revalidate(selected: Option<usize>, len: usize) -> (r: Option<usize>)
    ensures
        r == revalidated(selected, len as nat),
        cursor_fits(r, len as nat),
        cursor_fits(selected, len as nat) ==> r == selected,
{
    match selected {
        Some(i) if i < len => Some(i),
        _ => first(len),
    }
}

/// Moves the cursor one step down a list of `len` items.
pub fn advance(selected: Option<usize>, len: usize) -> (r: Option<usize>)
    ensures
        r == advanced(selected, len as nat),
        len == 0 ==> r == selected,
        len > 0 && selected == Some((len - 1) as usize) ==> r == Some(0usize),
        cursor_fits(selected, len as nat) ==> cursor_fits(r, len as nat),
{
    if len == 0 {
        return selected;
    }
    match selected {
        Some(i) if i < len - 1 => Some(i + 1),
        _ => Some(0),
    }
}

/// Moves the cursor one step up a list of `len` items.
pub fn retreat(selected: Option<usize>, len: usize) -> (r: Option<usize>)
    ensures
        r == retreated(selected, len as nat),
        len == 0 ==> r == selected,
        len > 0 && selected == Some(0usize) ==> r == Some((len - 1) as usize),
        cursor_fits(selected, len as nat) ==> cursor_fits(r, len as nat),
{
    if len == 0 {
        return selected;
    }
    match selected {
        Some(i) => if i == 0 {
            Some(len - 1)
        } else {
            Some(i - 1)
        },
        None => Some(0),
    }
}

} // verus!
