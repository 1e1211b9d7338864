use vstd::prelude::*;

use crate::entry::{describes, views, File, FileView, Stat};
use crate::text::{decimal, decimal_text};

verus! {

/// A hidden name is one that begins with a dot.
pub open spec fn is_hidden(name: Seq<char>) -> bool {
    name.len() > 0 && name[0] == '.'
}

/// Whether a record is printed: hidden names only when they are asked for.
pub open spec fn shown(f: FileView, show_hidden: bool) -> bool {
    show_hidden || !is_hidden(f.name)
}

/// A single space.
pub open spec fn space() -> Seq<char> {
    seq![' ']
}

/// A line break.
pub open spec fn newline() -> Seq<char> {
    seq!['\n']
}

/// `d` for a directory, `-` for anything else.
pub open spec fn type_glyph(is_dir: bool) -> Seq<char> {
    if is_dir {
        seq!['d']
    } else {
        seq!['-']
    }
}

/// One line of the long format: type and permissions, link count, owner,
/// group, size, date and name, separated by single spaces.
pub open spec fn long_row(f: FileView) -> Seq<char> {
    type_glyph(f.is_dir) + f.permissions + space() + decimal(f.nlink as nat) + space() + f.user
        + space() + f.group + space() + decimal(f.size as nat) + space() + f.date + space()
        + f.name + newline()
}

/// The text that one shown record adds: a long line, or its name and a space.
pub open spec fn row(f: FileView, long: bool) -> Seq<char> {
    if long {
        long_row(f)
    } else {
        f.name + space()
    }
}

/// The rows of the shown records, in the order given.
pub open spec fn rows(files: Seq<FileView>, show_hidden: bool, long: bool) -> Seq<char>
    decreases files.len(),
{
    if files.len() == 0 {
        Seq::empty()
    } else {
        rows(files.drop_last(), show_hidden, long) + if shown(files.last(), show_hidden) {
            row(files.last(), long)
        } else {
            Seq::empty()
        }
    }
}

/// The sum of the block counts of all records, hidden or not.
pub open spec fn total_blocks(files: Seq<FileView>) -> nat
    decreases files.len(),
{
    if files.len() == 0 {
        0
    } else {
        total_blocks(files.drop_last()) + files.last().nblocks as nat
    }
}

/// The first line of the long format.
pub open spec fn total_line(files: Seq<FileView>) -> Seq<char> {
    seq!['t', 'o', 't', 'a', 'l', ' '] + decimal(total_blocks(files)) + newline()
}

/// The whole text printed for one list of records.
pub open spec fn listing_text(files: Seq<FileView>, show_hidden: bool, long: bool) -> Seq<char> {
    (if long {
        total_line(files)
    } else {
        Seq::empty()
    }) + rows(files, show_hidden, long) + newline()
}

/// The total line of the long format counts the blocks of every record,
/// hidden ones included: the listing opens with the same line whether hidden
/// records are shown or not.
pub proof fn lemma_total_ignores_hidden(files: Seq<FileView>)
    ensures
        listing_text(files, true, true).take(total_line(files).len() as int) == total_line(files),
        listing_text(files, false, true).take(total_line(files).len() as int) == total_line(files),
{
    let n = total_line(files).len() as int;
    assert(listing_text(files, true, true).take(n) =~= total_line(files));
    assert(listing_text(files, false, true).take(n) =~= total_line(files));
}

/// The names of a sequence of records, each followed by a space.
pub open spec fn name_cells(files: Seq<FileView>) -> Seq<char>
    decreases files.len(),
{
    if files.len() == 0 {
        Seq::empty()
    } else {
        name_cells(files.drop_last()) + files.last().name + space()
    }
}

proof fn lemma_short_rows(files: Seq<FileView>, show_hidden: bool)
    ensures
        rows(files, show_hidden, false) == name_cells(
            files.filter(|f: FileView| shown(f, show_hidden)),
        ),
        rows(files, true, false) == name_cells(files),
    decreases files.len(),
{
    reveal(Seq::filter);
    let pred = |f: FileView| shown(f, show_hidden);
    if files.len() > 0 {
        lemma_short_rows(files.drop_last(), show_hidden);
        let sub = files.drop_last().filter(pred);
        if pred(files.last()) {
            assert(files.filter(pred) == sub.push(files.last()));
            assert(sub.push(files.last()).drop_last() =~= sub);
            assert(sub.push(files.last()).last() == files.last());
        } else {
            assert(files.filter(pred) == sub);
        }
    } else {
        assert(files.filter(pred) =~= files);
    }
}

/// The name-only format lists exactly the shown records, in their order:
/// each record whose name does not begin with a dot, and the hidden ones
/// (the synthetic `.` and `..` among them) only when they are asked for, in
/// which case every record is listed.
pub proof fn lemma_short_lists_shown(files: Seq<FileView>, show_hidden: bool)
    ensures
        listing_text(files, show_hidden, false) == name_cells(
            files.filter(|f: FileView| shown(f, show_hidden)),
        ) + newline(),
        listing_text(files, true, false) == name_cells(files) + newline(),
{
    lemma_short_rows(files, show_hidden);
    let pred = |f: FileView| shown(f, show_hidden);
    assert(listing_text(files, show_hidden, false) =~= name_cells(files.filter(pred)) + newline());
    assert(listing_text(files, true, false) =~= name_cells(files) + newline());
}

/// Listing an unchanged directory twice gives the same text: records built
/// from the same names and metadata, with the same owner, group and date
/// texts, render alike character for character.
pub proof fn lemma_listing_repeatable(
    first: Seq<FileView>,
    second: Seq<FileView>,
    names: Seq<Seq<char>>,
    stats: Seq<Stat>,
    show_hidden: bool,
    long: bool,
)
    requires
        first.len() == names.len(),
        second.len() == names.len(),
        stats.len() == names.len(),
        forall|j: int|
            0 <= j < names.len() ==> {
                &&& describes(#[trigger] first[j], names[j], stats[j])
                &&& describes(second[j], names[j], stats[j])
                &&& first[j].user == second[j].user
                &&& first[j].group == second[j].group
                &&& first[j].date == second[j].date
            },
    ensures
        listing_text(first, show_hidden, long) == listing_text(second, show_hidden, long),
{
    assert forall|j: int| 0 <= j < first.len() implies first[j] == second[j] by {
        assert(describes(first[j], names[j], stats[j]));
        assert(describes(second[j], names[j], stats[j]));
    }
    assert(first =~= second);
}

/// Whether `name` begins with a dot.
pub fn is_hidden_name(name: &String) -> (r: bool)
    ensures
        r == is_hidden(name@),
{
    let s = name.as_str();
    if s.unicode_len() == 0 {
        false
    } else {
        s.get_char(0) == '.'
    }
}

fn append_row(out: &mut String, f: &File, long: bool)
    ensures
        final(out)@ == old(out)@ + row(f@, long),
{
    proof {
        reveal_strlit(" ");
        reveal_strlit("\n");
        reveal_strlit("d");
        reveal_strlit("-");
    }
    let ghost start = out@;
    if long {
        if f.is_dir {
            out.append("d");
        } else {
            out.append("-");
        }
        out.append(f.permissions.as_str());
        out.append(" ");
        out.append(decimal_text(f.nlink as u128).as_str());
        out.append(" ");
        out.append(f.user.as_str());
        out.append(" ");
        out.append(f.group.as_str());
        out.append(" ");
        out.append(decimal_text(f.size as u128).as_str());
        out.append(" ");
        out.append(f.date.as_str());
        out.append(" ");
        out.append(f.name.as_str());
        out.append("\n");
    } else {
        out.append(f.name.as_str());
        out.append(" ");
    }
    assert(out@ =~= start + row(f@, long));
}

/// Sums the block counts of all records, hidden ones included.
pub fn total_of(files: &Vec<File>) -> (r: u128)
    ensures
        r == total_blocks(views(files@)),
{
    let ghost all = views(files@);
    let mut total: u128 = 0;
    let mut i: usize = 0;
    while i < files.len()
        invariant
            i <= files@.len(),
            all == views(files@),
            total == total_blocks(all.take(i as int)),
            total <= i as int * 0xffff_ffff_ffff_ffff,
        decreases files@.len() - i,
    {
        assert(all.take(i + 1).drop_last() =~= all.take(i as int));
        assert(all.take(i + 1).last() == files@[i as int]@);
        assert((i as int + 1) * 0xffff_ffff_ffff_ffff <= 0x1_0000_0000_0000_0000 * 0xffff_ffff_ffff_ffff)
            by (nonlinear_arith)
            requires
                i < 0x1_0000_0000_0000_0000int,
        ;
        total = total + files[i].nblocks as u128;
        i = i + 1;
    }
    assert(all.take(files@.len() as int) =~= all);
    total
}

/// Renders a list of records: in the long format a `total` line with the block
/// count of every record, then one line per shown record; otherwise the shown
/// names on one line, each followed by a space. A final newline ends either.
pub fn render_files(files: &Vec<File>, show_hidden: bool, long: bool) -> (r: String)
    ensures
        r@ == listing_text(views(files@), show_hidden, long),
{
    proof {
        reveal_strlit("total ");
        reveal_strlit("\n");
    }
    let ghost all = views(files@);
    let mut out = String::new();
    if long {
        out.append("total ");
        out.append(decimal_text(total_of(files)).as_str());
        out.append("\n");
    }
    let ghost head = out@;
    assert(head =~= if long {
        total_line(all)
    } else {
        Seq::empty()
    });
    let mut i: usize = 0;
    while i < files.len()
        invariant
            i <= files@.len(),
            all == views(files@),
            out@ == head + rows(all.take(i as int), show_hidden, long),
        decreases files@.len() - i,
    {
        assert(all.take(i + 1).drop_last() =~= all.take(i as int));
        assert(all.take(i + 1).last() == files@[i as int]@);
        let ghost before = out@;
        if show_hidden || !is_hidden_name(&files[i].name) {
            append_row(&mut out, &files[i], long);
        }
        assert(out@ =~= head + rows(all.take(i + 1), show_hidden, long));
        i = i + 1;
    }
    assert(all.take(files@.len() as int) =~= all);
    out.append("\n");
    assert(out@ =~= listing_text(all, show_hidden, long));
    out
}

} // verus!
