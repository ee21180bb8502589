//! Row ids, their text forms, and lists of them stored as text.
use vstd::prelude::*;
use crate::text::{
    comma_free, comma_join, comma_pieces, i64_of_text, i64_text, int_text, lemma_comma_pieces_of_join,
    law_int_text_is_decimal, lemma_int_text_reads_back, parse_i64, push_i64_text,
};

verus! {

/// Used to identify a unique row in a table.
#[derive(Copy, Clone, Debug, PartialEq, Eq, Structural)]
pub struct RowId(pub i64);

impl Default for RowId {
    /// The row id 0.
    fn default() -> (r: RowId)
        ensures
            r == RowId(0),
    {
        RowId(0)
    }
}

/// The `Debug` text of a row id, `RowId(<n>)`.
pub open spec fn row_id_debug_text(id: RowId) -> Seq<char> {
    "RowId("@ + int_text(id.0 as int) + ")"@
}

/// The text of a list of row ids as a database field holds it: their
/// decimal texts joined by commas.
pub open spec fn row_ids_text(ids: Seq<RowId>) -> Seq<char> {
    comma_join(ids.map_values(|id: RowId| int_text(id.0 as int)))
}

/// The row ids that the field text `s` lists: one per comma-separated
/// piece, each piece the decimal text of an `i64`. `None` where a piece is
/// not one.
pub open spec fn row_ids_of_text(s: Seq<char>) -> Option<Seq<RowId>> {
    let pieces = comma_pieces(s);
    if forall|k: int| 0 <= k < pieces.len() ==> (#[trigger] i64_of_text(pieces[k])) is Some {
        Some(Seq::new(pieces.len(), |k: int| RowId(i64_of_text(pieces[k])->0)))
    } else {
        None
    }
}

/// The `Debug` text of a list of row ids, `[RowId(1), RowId(2)]`.
pub open spec fn row_id_list_debug_text(ids: Seq<RowId>) -> Seq<char> {
    "["@ + debug_items(ids) + "]"@
}

/// The `Debug` texts of the ids, separated by `, `.
pub open spec fn debug_items(ids: Seq<RowId>) -> Seq<char>
    decreases ids.len(),
{
    if ids.len() == 0 {
        Seq::empty()
    } else if ids.len() == 1 {
        row_id_debug_text(ids[0])
    } else {
        debug_items(ids.drop_last()) + ", "@ + row_id_debug_text(ids.last())
    }
}

impl RowId {
    /// The decimal text of the id, as `{}` formatting writes it.
    pub fn to_string(&self) -> (r: String)
        ensures
            r@ == int_text(self.0 as int),
    {
        i64_text(self.0)
    }

    /// The `Debug` text of the id, `RowId(<n>)`.
    pub fn debug_text(&self) -> (r: String)
        ensures
            r@ == row_id_debug_text(*self),
    {
        let mut s = String::from_str("RowId(");
        push_i64_text(&mut s, self.0);
        s.append(")");
        s
    }
}

/// The `Debug` text of a list of row ids, `[RowId(1), RowId(2)]`.
pub fn row_id_list_debug(ids: &Vec<RowId>) -> (r: String)
    ensures
        r@ == row_id_list_debug_text(ids@),
{
    let mut s = String::from_str("[");
    let mut i: usize = 0;
    while i < ids.len()
        invariant
            i <= ids.len(),
            s@ == "["@ + debug_items(ids@.subrange(0, i as int)),
        decreases ids.len() - i,
    {
        let ghost before = s@;
        if i > 0 {
            s.append(", ");
        }
        let item = ids[i].debug_text();
        s.append(item.as_str());
        proof {
            let next = ids@.subrange(0, i + 1);
            assert(next.drop_last() =~= ids@.subrange(0, i as int));
            if i == 0 {
                assert(debug_items(ids@.subrange(0, 0)) =~= Seq::<char>::empty());
                assert(s@ =~= "["@ + debug_items(next));
            } else {
                assert(s@ =~= "["@ + debug_items(next));
            }
        }
        i = i + 1;
    }
    assert(ids@.subrange(0, ids.len() as int) =~= ids@);
    s.append("]");
    s
}

/// Reads the row ids that a field text lists, one per comma-separated piece.
/// `None` when a piece is not the decimal text of an `i64` (an empty text is
/// one empty piece, so it gives `None` too).
pub fn parse_row_id_list(text: &str) -> (r: Option<Vec<RowId>>)
    ensures
        match r {
            Some(ids) => row_ids_of_text(text@) == Some(ids@),
            None => row_ids_of_text(text@) is None,
        },
{
    let len = text.unicode_len();
    // First the boundaries of the pieces, then their values.
    let mut starts: Vec<usize> = Vec::new();
    let mut ends: Vec<usize> = Vec::new();
    let mut start: usize = 0;
    let mut i: usize = 0;
    assert(text@.subrange(0, 0) =~= Seq::<char>::empty());
    assert(comma_pieces(text@.subrange(0, 0)) =~= Seq::new(
        starts.len() as nat,
        |k: int| text@.subrange(starts[k] as int, ends[k] as int),
    ).push(text@.subrange(0, 0)));
    while i < len
        invariant
            i <= len,
            len == text@.len(),
            start <= i,
            starts.len() == ends.len(),
            forall|k: int| 0 <= k < starts.len() ==> #[trigger] starts[k] <= ends[k],
            forall|k: int| 0 <= k < ends.len() ==> #[trigger] ends[k] <= i,
            comma_pieces(text@.subrange(0, i as int)) == Seq::new(
                starts.len() as nat,
                |k: int| text@.subrange(starts[k] as int, ends[k] as int),
            ).push(text@.subrange(start as int, i as int)),
        decreases len - i,
    {
        let c = text.get_char(i);
        let ghost before = comma_pieces(text@.subrange(0, i as int));
        assert(text@.subrange(0, i + 1).drop_last() =~= text@.subrange(0, i as int));
        assert(text@.subrange(0, i + 1).last() == c);
        let ghost old_starts = starts@;
        let ghost old_ends = ends@;
        if c == ',' {
            starts.push(start);
            ends.push(i);
            start = i + 1;
            proof {
                assert forall|k: int| 0 <= k < starts.len() implies #[trigger] starts[k] <= ends[k] by {
                    if k < starts.len() - 1 {
                        assert(starts[k] == old_starts[k] && ends[k] == old_ends[k]);
                    }
                }
                assert forall|k: int| 0 <= k < ends.len() implies #[trigger] ends[k] <= i + 1 by {
                    if k < ends.len() - 1 {
                        assert(ends[k] == old_ends[k]);
                    }
                }
                assert(comma_pieces(text@.subrange(0, i + 1)) == before.push(Seq::<char>::empty()));
                assert(text@.subrange(i + 1, i + 1) =~= Seq::<char>::empty());
                assert(comma_pieces(text@.subrange(0, i + 1)) =~= Seq::new(
                    starts.len() as nat,
                    |k: int| text@.subrange(starts[k] as int, ends[k] as int),
                ).push(text@.subrange(start as int, i + 1)));
            }
        } else {
            proof {
                assert forall|k: int| 0 <= k < ends.len() implies #[trigger] ends[k] <= i + 1 by {
                    assert(ends[k] == old_ends[k]);
                }
                assert(text@.subrange(start as int, i + 1) =~= text@.subrange(
                    start as int,
                    i as int,
                ).push(c));
                assert(comma_pieces(text@.subrange(0, i + 1)) =~= Seq::new(
                    starts.len() as nat,
                    |k: int| text@.subrange(starts[k] as int, ends[k] as int),
                ).push(text@.subrange(start as int, i + 1)));
            }
        }
        i = i + 1;
    }
    starts.push(start);
    ends.push(len);
    let ghost pieces = comma_pieces(text@);
    assert(text@.subrange(0, len as int) =~= text@);
    assert(pieces =~= Seq::new(
        starts.len() as nat,
        |k: int| text@.subrange(starts[k] as int, ends[k] as int),
    ));
    let mut ids: Vec<RowId> = Vec::new();
    let mut j: usize = 0;
    while j < starts.len()
        invariant
            j <= starts.len(),
            starts.len() == ends.len(),
            pieces.len() == starts.len(),
            len == text@.len(),
            pieces == comma_pieces(text@),
            forall|k: int| 0 <= k < starts.len() ==> #[trigger] starts[k] <= ends[k] <= len,
            forall|k: int|
                0 <= k < pieces.len() ==> #[trigger] pieces[k] == text@.subrange(
                    starts[k] as int,
                    ends[k] as int,
                ),
            ids.len() == j,
            forall|k: int|
                0 <= k < j ==> (#[trigger] i64_of_text(pieces[k])) == Some(ids[k].0),
        decreases starts.len() - j,
    {
        let piece = text.substring_char(starts[j], ends[j]);
        match parse_i64(piece) {
            Some(value) => {
                ids.push(RowId(value));
            },
            None => {
                assert(i64_of_text(pieces[j as int]) is None);
                return None;
            },
        }
        j = j + 1;
    }
    assert(ids@ =~= Seq::new(pieces.len(), |k: int| RowId(i64_of_text(pieces[k])->0)));
    Some(ids)
}

/// A nonempty list of row ids, written as their decimal texts joined by
/// commas, reads back as the same list.
pub proof fn law_row_id_list_round_trip(ids: Seq<RowId>)
    requires
        ids.len() > 0,
    ensures
        row_ids_of_text(row_ids_text(ids)) == Some(ids),
{
    let pieces = ids.map_values(|id: RowId| int_text(id.0 as int));
    assert forall|k: int| 0 <= k < pieces.len() implies comma_free(#[trigger] pieces[k]) by {
        lemma_int_text_reads_back(ids[k].0);
    }
    lemma_comma_pieces_of_join(pieces);
    assert forall|k: int| 0 <= k < pieces.len() implies (#[trigger] i64_of_text(pieces[k])) == Some(
        ids[k].0,
    ) by {
        lemma_int_text_reads_back(ids[k].0);
    }
    assert(Seq::new(pieces.len(), |k: int| RowId(i64_of_text(pieces[k])->0)) =~= ids);
}

/// The decimal text of a row id reads back as the same row id.
pub proof fn law_row_id_text_round_trip(id: RowId)
    ensures
        i64_of_text(int_text(id.0 as int)) == Some(id.0),
{
    lemma_int_text_reads_back(id.0);
}

/// A row id shows as `RowId(`, its decimal text, then `)`, as `{:?}` writes
/// it; two row ids show the same only when they are the same id.
pub proof fn law_row_id_debug_text_tells_id(id: RowId, other: RowId)
    ensures
        row_id_debug_text(id).len() == int_text(id.0 as int).len() + 7,
        row_id_debug_text(id).subrange(0, 6) == "RowId("@,
        row_id_debug_text(id).subrange(6, 6int + int_text(id.0 as int).len()) == int_text(id.0 as int),
        row_id_debug_text(id).last() == ')',
        row_id_debug_text(id) == row_id_debug_text(other) <==> id == other,
{
    reveal_strlit("RowId(");
    reveal_strlit(")");
    let t = int_text(id.0 as int);
    let u = int_text(other.0 as int);
    let a = row_id_debug_text(id);
    assert(a.subrange(0, 6) =~= "RowId("@);
    assert(a.subrange(6, 6int + t.len()) =~= t);
    law_int_text_is_decimal(id.0 as int, other.0 as int);
    if a == row_id_debug_text(other) {
        let b = row_id_debug_text(other);
        assert(b.subrange(6, 6int + u.len()) =~= u);
        assert(t.len() == u.len());
    }
}

/// A list of row ids shows as `[`, the ids' texts separated by `, `, then
/// `]`, as `{:?}` writes it: `[]` for no ids, `[RowId(a)]` for one, and
/// `[RowId(a), RowId(b)]` for two.
pub proof fn law_row_id_list_debug_text_shape(a: RowId, b: RowId)
    ensures
        row_id_list_debug_text(Seq::empty()) == "[]"@,
        row_id_list_debug_text(seq![a]) == "["@ + row_id_debug_text(a) + "]"@,
        row_id_list_debug_text(seq![a, b]) == "["@ + row_id_debug_text(a) + ", "@
            + row_id_debug_text(b) + "]"@,
{
    reveal_strlit("[]");
    reveal_strlit("[");
    reveal_strlit("]");
    assert(row_id_list_debug_text(Seq::empty()) =~= "[]"@);
    assert(seq![a, b].drop_last() =~= seq![a]);
    assert(seq![a, b].last() == b);
    assert(seq![a][0] == a);
    assert(debug_items(seq![a]) == row_id_debug_text(a));
    assert(debug_items(seq![a, b]) == row_id_debug_text(a) + ", "@ + row_id_debug_text(b));
    assert(row_id_list_debug_text(seq![a, b]) =~= "["@ + row_id_debug_text(a) + ", "@
        + row_id_debug_text(b) + "]"@);
}

} // verus!
