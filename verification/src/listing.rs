//! The shelf as the browser reads it: one line per book.
use vstd::prelude::*;
use vstd::string::*;
use crate::bounded::{utf8_len, Text};

verus! {

/// The longest label, in bytes.
pub const LABEL_BYTES: usize = 64;

/// Where an upload can have put a book.
#[derive(Clone, Copy, PartialEq, Eq, Structural, Debug)]
pub enum ShelfPlacement {
    Shelf,
    Root,
}

/// A catalog row as the shelf shows it.
pub struct ListingRow {
    /// `None` for a book the shelf's addresses cannot name.
    pub placement: Option<ShelfPlacement>,
    pub open_name: Vec<u8>,
    pub label: Vec<u8>,
}

pub open spec fn flag_of(placement: ShelfPlacement) -> u8 {
    match placement {
        ShelfPlacement::Shelf => 66,
        ShelfPlacement::Root => 82,
    }
}

/// A book's line: where it is, the name it opens by, and its label.
pub open spec fn line_of(placement: ShelfPlacement, open_name: Seq<u8>, label: Seq<u8>) -> Seq<u8> {
    seq![flag_of(placement), 124u8] + open_name + seq![124u8] + label + seq![10u8]
}

/// The lines of the rows, in order, as many as fit in `room` bytes. A row
/// without a line is passed over; the first line that does not fit ends the
/// listing.
pub open spec fn listing_of(rows: Seq<ListingRow>, room: int) -> Seq<u8>
    decreases rows.len(),
{
    if rows.len() == 0 {
        Seq::empty()
    } else {
        match rows[0].placement {
            None => listing_of(rows.drop_first(), room),
            Some(placement) => {
                let line = line_of(placement, rows[0].open_name@, rows[0].label@);
                if line.len() > room {
                    Seq::empty()
                } else {
                    line + listing_of(rows.drop_first(), room - line.len())
                }
            },
        }
    }
}

/// The label of a row: the title kept for the book, or the one its file name
/// gives. One that does not fit is left out.
pub fn listing_label(title: &str, stem_label: &str) -> (label: Text<LABEL_BYTES>)
    ensures
        label@ == label_listed(title@, stem_label@),
        ({
            let wanted = if title@.len() > 0 { title@ } else { stem_label@ };
            label@ == if utf8_len(wanted) <= LABEL_BYTES { wanted } else { Seq::empty() }
        }),
{
    let mut label: Text<LABEL_BYTES> = Text::new();
    assert(utf8_len(Seq::<char>::empty()) == 0);
    assert(Seq::<char>::empty() + title@ =~= title@);
    assert(Seq::<char>::empty() + stem_label@ =~= stem_label@);
    if title.is_empty() {
        let _ = label.push_str(stem_label);
    } else {
        let _ = label.push_str(title);
    }
    label
}

fn append(out: &mut Vec<u8>, bytes: &Vec<u8>)
    ensures
        final(out)@ == old(out)@ + bytes@,
{
    let mut i: usize = 0;
    assert(out@ + bytes@.take(0) =~= out@);
    while i < bytes.len()
        invariant
            i <= bytes@.len(),
            out@ == old(out)@ + bytes@.take(i as int),
        decreases bytes@.len() - i,
    {
        out.push(bytes[i]);
        i += 1;
        assert(out@ =~= old(out)@ + bytes@.take(i as int));
    }
    assert(bytes@.take(i as int) =~= bytes@);
}

/// Writes the shelf's lines into at most `budget` bytes. A line is written
/// whole or not at all.
pub fn write_catalog_listing(rows: &Vec<ListingRow>, budget: usize) -> (out: Vec<u8>)
    ensures
        out@ == listing_of(rows@, budget as int),
{
    let mut out: Vec<u8> = Vec::new();
    let mut i: usize = 0;
    let ghost whole = listing_of(rows@, budget as int);
    proof {
        assert(rows@.skip(0) =~= rows@);
        assert(out@ + whole =~= whole);
    }
    while i < rows.len()
        invariant
            i <= rows@.len(),
            out@.len() <= budget,
            whole == listing_of(rows@, budget as int),
            out@ + listing_of(rows@.skip(i as int), budget - out@.len()) == whole,
        decreases rows@.len() - i,
    {
        let row = &rows[i];
        proof {
            assert(rows@.skip(i as int)[0] == rows@[i as int]);
            assert(rows@.skip(i as int).drop_first() =~= rows@.skip(i + 1));
        }
        if let Some(placement) = row.placement {
            let room: usize = budget - out.len();
            let name_len: usize = row.open_name.len();
            let label_len: usize = row.label.len();
            let ghost line = line_of(placement, row.open_name@, row.label@);
            assert(line.len() == 4 + name_len + label_len);
            if room < 4 || room - 4 < name_len || room - 4 - name_len < label_len {
                assert(out@ + Seq::<u8>::empty() =~= out@);
                return out;
            }
            let ghost before = out@;
            let flag: u8 = match placement {
                ShelfPlacement::Shelf => 66,
                ShelfPlacement::Root => 82,
            };
            out.push(flag);
            out.push(124);
            append(&mut out, &row.open_name);
            out.push(124);
            append(&mut out, &row.label);
            out.push(10);
            proof {
                assert(out@ =~= before + line);
                assert(before + line + listing_of(
                    rows@.skip(i + 1),
                    budget - before.len() - line.len(),
                ) =~= before + (line + listing_of(
                    rows@.skip(i + 1),
                    budget - before.len() - line.len(),
                )));
            }
        }
        i += 1;
    }
    proof {
        assert(rows@.skip(i as int) =~= Seq::<ListingRow>::empty());
        assert(out@ + Seq::<u8>::empty() =~= out@);
    }
    out
}

/// A listing never passes its buffer, and every line of it is whole: it is
/// empty or ends with a line's end.
pub proof fn law_listing_fits_and_is_whole(rows: Seq<ListingRow>, room: int)
    requires
        room >= 0,
    ensures
        listing_of(rows, room).len() <= room,
        listing_of(rows, room).len() > 0 ==> listing_of(rows, room).last() == 10,
    decreases rows.len(),
{
    if rows.len() > 0 {
        match rows[0].placement {
            None => {
                law_listing_fits_and_is_whole(rows.drop_first(), room);
            },
            Some(placement) => {
                let line = line_of(placement, rows[0].open_name@, rows[0].label@);
                if line.len() <= room {
                    law_listing_fits_and_is_whole(rows.drop_first(), room - line.len());
                }
            },
        }
    }
}

/// A line can be read back: it opens with `B` or `R` for where the book is,
/// the name it opens by stands between the first two bars, the label runs
/// from there to the end of the line, and nothing else is in it.
pub proof fn law_line_reads_back(placement: ShelfPlacement, open_name: Seq<u8>, label: Seq<u8>)
    ensures
        ({
            let line = line_of(placement, open_name, label);
            let n = open_name.len() as int;
            &&& line.len() == open_name.len() + label.len() + 4
            &&& line[0] == 66 <==> placement is Shelf
            &&& line[0] == 82 <==> placement is Root
            &&& line[1] == 124
            &&& line.subrange(2, 2 + n) == open_name
            &&& line[2 + n] == 124
            &&& line.subrange(3 + n, line.len() - 1) == label
            &&& line.last() == 10
        }),
{
    let line = line_of(placement, open_name, label);
    let n = open_name.len() as int;
    assert(line.subrange(2, 2 + n) =~= open_name);
    assert(line.subrange(3 + n, line.len() - 1) =~= label);
}

/// The lines of the first `count` rows, one after another, without a limit.
pub open spec fn first_lines(rows: Seq<ListingRow>, count: nat) -> Seq<u8>
    decreases count,
{
    if count == 0 {
        Seq::empty()
    } else {
        let row = rows[count - 1];
        first_lines(rows, (count - 1) as nat) + match row.placement {
            Some(placement) => line_of(placement, row.open_name@, row.label@),
            None => Seq::empty(),
        }
    }
}

proof fn lemma_first_lines(rows: Seq<ListingRow>, count: nat)
    requires
        0 < count <= rows.len(),
    ensures
        first_lines(rows, count) == first_lines(rows, 1) + first_lines(
            rows.drop_first(),
            (count - 1) as nat,
        ),
    decreases count,
{
    if count == 1 {
        assert(first_lines(rows, 1) + Seq::<u8>::empty() =~= first_lines(rows, 1));
    } else {
        lemma_first_lines(rows, (count - 1) as nat);
        assert(rows.drop_first()[count - 2] == rows[count - 1]);
        let row = rows[count - 1];
        let line = match row.placement {
            Some(placement) => line_of(placement, row.open_name@, row.label@),
            None => Seq::empty(),
        };
        let head = first_lines(rows, 1);
        let middle = first_lines(rows.drop_first(), (count - 2) as nat);
        assert((head + middle) + line =~= head + (middle + line));
    }
}

/// A listing holds the lines of the books from the first on, in their order,
/// and leaves books out only at its end and only for want of room: all are
/// there, or the next has a line that does not fit behind those before it.
pub proof fn law_books_are_listed_in_order(rows: Seq<ListingRow>, room: int) -> (count: nat)
    requires
        room >= 0,
    ensures
        count <= rows.len(),
        listing_of(rows, room) == first_lines(rows, count),
        count < rows.len() ==> rows[count as int].placement is Some && first_lines(rows, count).len()
            + rows[count as int].open_name@.len() + rows[count as int].label@.len() + 4 > room,
    decreases rows.len(),
{
    if rows.len() == 0 {
        0
    } else {
        let rest = rows.drop_first();
        match rows[0].placement {
            None => {
                let count = law_books_are_listed_in_order(rest, room);
                lemma_first_lines(rows, count + 1);
                reveal_with_fuel(first_lines, 2);
                assert(first_lines(rows, 1) =~= Seq::<u8>::empty());
                assert(first_lines(rows, count + 1) =~= first_lines(rest, count));
                if count < rest.len() {
                    assert(rest[count as int] == rows[count as int + 1]);
                }
                count + 1
            },
            Some(placement) => {
                let line = line_of(placement, rows[0].open_name@, rows[0].label@);
                if line.len() > room {
                    0
                } else {
                    let count = law_books_are_listed_in_order(rest, room - line.len());
                    lemma_first_lines(rows, count + 1);
                    reveal_with_fuel(first_lines, 2);
                    assert(first_lines(rows, 1) =~= line);
                    if count < rest.len() {
                        assert(rest[count as int] == rows[count as int + 1]);
                    }
                    count + 1
                }
            },
        }
    }
}

pub open spec fn label_listed(title: Seq<char>, stem_label: Seq<char>) -> Seq<char> {
    let wanted = if title.len() > 0 { title } else { stem_label };
    if utf8_len(wanted) <= LABEL_BYTES { wanted } else { Seq::empty() }
}

/// A row is listed by its title, by its file's name only where it has none,
/// and by nothing where that does not fit: never by a part of it.
pub proof fn law_row_is_listed_by_its_title(title: Seq<char>, stem_label: Seq<char>)
    ensures
        title.len() > 0 && utf8_len(title) <= LABEL_BYTES ==> label_listed(title, stem_label) == title,
        title.len() == 0 && utf8_len(stem_label) <= LABEL_BYTES ==> label_listed(title, stem_label)
            == stem_label,
        title.len() > 0 && utf8_len(title) > LABEL_BYTES ==> label_listed(title, stem_label).len()
            == 0,
        label_listed(title, stem_label).len() > 0 ==> label_listed(title, stem_label) == title
            || label_listed(title, stem_label) == stem_label,
{
}

} // verus!
