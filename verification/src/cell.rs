use vstd::prelude::*;

use core::ops::Range;

use crate::error::GralifferError;
use crate::text::{count_graphemes, grapheme_count, is_plain_text, take_graphemes};

verus! {

/// The view of a cell after inserting `s` at character index `i`: `i` is
/// clamped to the length, as byte-offset conversion clamps it.
pub open spec fn inserted_at(c: Seq<char>, s: Seq<char>, i: int) -> Seq<char> {
    let j = if i <= c.len() {
        i
    } else {
        c.len() as int
    };
    c.subrange(0, j) + s + c.subrange(j, c.len() as int)
}

/// The view of a cell after deleting the character range `lo .. hi`, both
/// clamped to the length.
pub open spec fn deleted_range(c: Seq<char>, lo: int, hi: int) -> Seq<char> {
    let l = if lo <= c.len() {
        lo
    } else {
        c.len() as int
    };
    let h = if hi <= c.len() {
        hi
    } else {
        c.len() as int
    };
    c.subrange(0, l) + c.subrange(h, c.len() as int)
}

/// True of text a cell may hold: empty, or at most three grapheme
/// clusters. Every cell satisfies it at all times, whatever sequence of
/// constructions, insertions and deletions produced it.
pub open spec fn cell_text_bounded(s: Seq<char>) -> bool {
    s.len() == 0 || grapheme_count(s) <= 3
}

/// A unit of the grid: a string of at most three grapheme clusters.
///
/// The bound holds at all times: construction and insertion that would
/// exceed it fail and leave the cell unchanged, and the trimming
/// constructor truncates instead.
#[derive(Debug)]
pub struct Cell {
    content: String,
}

impl View for Cell {
    type V = Seq<char>;

    closed spec fn view(&self) -> Seq<char> {
        self.content@
    }
}

impl Cell {
    #[verifier::type_invariant]
    spec fn wf(self) -> bool {
        cell_text_bounded(self@)
    }

    /// The bound on every cell's text, stated of this one.
    pub fn bounded(&self) -> (r: bool)
        ensures
            r,
            cell_text_bounded(self@),
    {
        proof {
            use_type_invariant(self);
        }
        true
    }

    /// A cell holding the given text.
    ///
    /// Fails exactly when the text is more than three graphemes long.
    pub fn new(string: &str) -> (r: Result<Self, GralifferError>)
        ensures
            r matches Ok(c) ==> grapheme_count(string@) <= 3 && c@ == string@,
            r matches Err(e) ==> grapheme_count(string@) > 3 && e == GralifferError::CellTooLong,
            is_plain_text(string@) ==> (r is Ok <==> string@.len() <= 3),
    {
        let n = count_graphemes(string);
        if n > 3 {
            Err(GralifferError::CellTooLong)
        } else {
            Ok(Cell { content: String::from_str(string) })
        }
    }

    /// A cell holding the given text, trimmed to its first three
    /// graphemes when it is longer.
    pub fn new_trim(string: &str) -> (r: Self)
        ensures
            grapheme_count(string@) <= 3 ==> r@ == string@,
            r@.len() <= string@.len() && r@ == string@.subrange(0, r@.len() as int),
            is_plain_text(string@) ==> r@ == string@.subrange(
                0,
                if string@.len() <= 3 { string@.len() as int } else { 3int },
            ),
    {
        let n = count_graphemes(string);
        if n <= 3 {
            let r = Cell { content: String::from_str(string) };
            proof {
                assert(string@.subrange(0, string@.len() as int) =~= string@);
            }
            r
        } else {
            Cell { content: take_graphemes(string, 3) }
        }
    }

    /// Inserts `string` into the cell at character index `char_index`
    /// (clamped to the length), atomically: when the grown text would
    /// exceed three graphemes nothing changes.
    ///
    /// Succeeds exactly when the grown text stays within three graphemes,
    /// and then reports how many characters were inserted.
    pub fn insert_at(&mut self, string: &str, char_index: usize) -> (r: Result<
        usize,
        GralifferError,
    >)
        ensures
            grapheme_count(inserted_at(old(self)@, string@, char_index as int)) <= 3 ==> {
                &&& r matches Ok(k) && k == string@.len()
                &&& final(self)@ == inserted_at(old(self)@, string@, char_index as int)
            },
            grapheme_count(inserted_at(old(self)@, string@, char_index as int)) > 3 ==> {
                &&& r matches Err(e) && e == GralifferError::CellTooLong
                &&& final(self)@ == old(self)@
            },
    {
        let n = self.content.as_str().unicode_len();
        let ci = if char_index <= n {
            char_index
        } else {
            n
        };
        let mut grown = String::from_str(self.content.as_str().substring_char(0, ci));
        grown.append(string);
        grown.append(self.content.as_str().substring_char(ci, n));
        proof {
            assert(grown@ =~= inserted_at(self@, string@, char_index as int));
        }
        let g = count_graphemes(grown.as_str());
        if g > 3 {
            Err(GralifferError::CellTooLong)
        } else {
            let inserted = string.unicode_len();
            self.content = grown;
            Ok(inserted)
        }
    }

    /// Removes the character range `char_range` (clamped to the length)
    /// from the cell, and reports how many characters were removed.
    ///
    /// As a defensive guard the removal is also atomic: in the unexpected
    /// case that the shrunk text re-segments into more than three
    /// graphemes, nothing changes and the cap is reported instead.
    pub fn delete_char_range(&mut self, char_range: Range<usize>) -> (r: Result<
        usize,
        GralifferError,
    >)
        requires
            char_range.start <= char_range.end,
        ensures
            grapheme_count(
                deleted_range(old(self)@, char_range.start as int, char_range.end as int),
            ) <= 3 ==> {
                &&& final(self)@ == deleted_range(
                    old(self)@,
                    char_range.start as int,
                    char_range.end as int,
                )
                &&& r matches Ok(k) && old(self)@.len() == final(self)@.len() + k
            },
            grapheme_count(
                deleted_range(old(self)@, char_range.start as int, char_range.end as int),
            ) > 3 ==> {
                &&& r matches Err(e) && e == GralifferError::CellTooLong
                &&& final(self)@ == old(self)@
            },
    {
        let n = self.content.as_str().unicode_len();
        let lo = if char_range.start <= n {
            char_range.start
        } else {
            n
        };
        let hi = if char_range.end <= n {
            char_range.end
        } else {
            n
        };
        let mut shrunk = String::from_str(self.content.as_str().substring_char(0, lo));
        shrunk.append(self.content.as_str().substring_char(hi, n));
        proof {
            assert(shrunk@ =~= deleted_range(self@, char_range.start as int, char_range.end as int));
        }
        let g = count_graphemes(shrunk.as_str());
        if g > 3 {
            Err(GralifferError::CellTooLong)
        } else {
            let removed = hi - lo;
            self.content = shrunk;
            Ok(removed)
        }
    }

    /// Removes all characters from the cell.
    pub fn clear(&mut self)
        ensures
            final(self)@ == Seq::<char>::empty(),
    {
        self.content = String::new();
        proof {
            assert(self@ =~= Seq::<char>::empty());
        }
    }

    /// The length of the cell's content in bytes of its UTF-8 form.
    pub fn len(&self) -> (r: usize)
        ensures
            r == vstd::utf8::encode_utf8(self@).len() as usize,
    {
        self.content.as_str().len()
    }

    /// The text of the character range `char_range` (clamped to the
    /// length) of the cell.
    pub fn get_content_range(&self, char_range: Range<usize>) -> (r: String)
        requires
            char_range.start <= char_range.end,
        ensures
            r@ == {
                let l = if char_range.start <= self@.len() {
                    char_range.start as int
                } else {
                    self@.len() as int
                };
                let h = if char_range.end <= self@.len() {
                    char_range.end as int
                } else {
                    self@.len() as int
                };
                self@.subrange(l, h)
            },
    {
        let n = self.content.as_str().unicode_len();
        let lo = if char_range.start <= n {
            char_range.start
        } else {
            n
        };
        let hi = if char_range.end <= n {
            char_range.end
        } else {
            n
        };
        String::from_str(self.content.as_str().substring_char(lo, hi))
    }

    /// Replaces the cell's text.
    ///
    /// Fails exactly when the new text is more than three graphemes long,
    /// and then leaves the cell unchanged.
    pub fn set(&mut self, content: &str) -> (r: Result<(), GralifferError>)
        ensures
            r matches Ok(u) ==> grapheme_count(content@) <= 3 && final(self)@ == content@,
            r matches Err(e) ==> grapheme_count(content@) > 3 && e == GralifferError::CellTooLong
                && final(self)@ == old(self)@,
    {
        let fresh = Cell::new(content)?;
        self.content = fresh.content;
        Ok(())
    }

    /// True if the cell holds no text.
    pub fn is_empty(&self) -> (r: bool)
        ensures
            r == (self@.len() == 0),
    {
        self.content.as_str().is_empty()
    }

    /// The cell's text.
    pub fn content(&self) -> (r: String)
        ensures
            r@ == self@,
    {
        self.content.clone()
    }
}

impl Default for Cell {
    /// The empty cell.
    fn default() -> (r: Self)
        ensures
            r@ == Seq::<char>::empty(),
    {
        Cell { content: String::new() }
    }
}

impl Clone for Cell {
    /// An identical cell.
    fn clone(&self) -> (r: Self)
        ensures
            r == *self,
    {
        proof {
            use_type_invariant(self);
        }
        Cell { content: self.content.clone() }
    }
}

impl PartialEq for Cell {
    fn eq(&self, other: &Self) -> (r: bool) {
        self.content == other.content
    }
}

impl vstd::std_specs::cmp::PartialEqSpecImpl for Cell {
    open spec fn obeys_eq_spec() -> bool {
        true
    }

    open spec fn eq_spec(&self, other: &Cell) -> bool {
        self@ == other@
    }
}

impl Eq for Cell {

}

/// The byte offset of the character index `char_index` (clamped to the
/// length) in the UTF-8 form of `s`.
pub fn byte_index_from_char_index(s: &str, char_index: usize) -> (r: usize)
    ensures
        r == vstd::utf8::encode_utf8(
            s@.subrange(
                0,
                if char_index <= s@.len() {
                    char_index as int
                } else {
                    s@.len() as int
                },
            ),
        ).len() as usize,
{
    let n = s.unicode_len();
    let i = if char_index <= n {
        char_index
    } else {
        n
    };
    s.substring_char(0, i).len()
}

} // verus!
