use vstd::prelude::*;

use crate::entry::{views, File, FileView};
use crate::listing::{dot, dot_dot};
use crate::render::{is_hidden_name, listing_text, newline, render_files, shown};

verus! {

/// Whether the walk descends into a record: a directory that is shown and is
/// not one of the synthetic `.` and `..` entries.
pub open spec fn descends(f: FileView, show_hidden: bool) -> bool {
    f.is_dir && shown(f, show_hidden) && f.name != dot() && f.name != dot_dot()
}

/// The path of a child of `dir`.
pub open spec fn child_path(dir: Seq<char>, name: Seq<char>) -> Seq<char> {
    dir + seq!['/'] + name
}

/// The paths of the subdirectories of `dir` that the walk enters, in the order
/// of the records.
pub open spec fn children(dir: Seq<char>, files: Seq<FileView>, show_hidden: bool) -> Seq<
    Seq<char>,
>
    decreases files.len(),
{
    if files.len() == 0 {
        Seq::empty()
    } else {
        children(dir, files.drop_last(), show_hidden) + if descends(files.last(), show_hidden) {
            seq![child_path(dir, files.last().name)]
        } else {
            Seq::empty()
        }
    }
}

/// Whether `path` is the path of a directory record of `files` whose name is
/// neither `.` nor `..`.
pub open spec fn enters_record(dir: Seq<char>, files: Seq<FileView>, path: Seq<char>) -> bool {
    exists|j: int|
        {
            &&& 0 <= j < files.len()
            &&& #[trigger] files[j].is_dir
            &&& files[j].name != dot()
            &&& files[j].name != dot_dot()
            &&& path == child_path(dir, files[j].name)
        }
}

/// The walk never re-enters `.` or `..`: every directory it queues from a
/// listing is the path of a directory record whose name is neither `.` nor
/// `..`.
pub proof fn lemma_never_reenters(dir: Seq<char>, files: Seq<FileView>, show_hidden: bool)
    ensures
        forall|k: int|
            0 <= k < children(dir, files, show_hidden).len() ==> enters_record(
                dir,
                files,
                #[trigger] children(dir, files, show_hidden)[k],
            ),
    decreases files.len(),
{
    if files.len() > 0 {
        let rest = files.drop_last();
        lemma_never_reenters(dir, rest, show_hidden);
        let c = children(dir, files, show_hidden);
        let cr = children(dir, rest, show_hidden);
        assert forall|k: int| 0 <= k < c.len() implies enters_record(dir, files, #[trigger] c[k]) by {
            if k < cr.len() {
                assert(c[k] == cr[k]);
                assert(enters_record(dir, rest, cr[k]));
                let j = choose|j: int|
                    {
                        &&& 0 <= j < rest.len()
                        &&& #[trigger] rest[j].is_dir
                        &&& rest[j].name != dot()
                        &&& rest[j].name != dot_dot()
                        &&& cr[k] == child_path(dir, rest[j].name)
                    };
                assert(files[j] == rest[j]);
                assert(files[j].is_dir);
            } else {
                let last = files.len() - 1;
                assert(descends(files.last(), show_hidden));
                assert(c[k] == child_path(dir, files[last].name));
                assert(files[last].is_dir);
            }
        }
    } else {
        assert(children(dir, files, show_hidden).len() == 0);
    }
}

/// The text printed for one directory: its path and a colon, its listing, and
/// a blank line.
pub open spec fn section(dir: Seq<char>, files: Seq<FileView>, show_hidden: bool, long: bool) -> Seq<
    char,
> {
    dir + seq![':', '\n'] + listing_text(files, show_hidden, long) + newline()
}

/// The texts of a sequence of strings.
pub open spec fn texts(v: Seq<String>) -> Seq<Seq<char>> {
    v.map_values(|s: String| s@)
}

/// A depth-first, pre-order walk over a directory tree. The walker decides
/// which directory comes next and what is printed for it; reading each
/// directory is left to its caller.
pub struct Walker {
    pending: Vec<String>,
    show_hidden: bool,
    long: bool,
    started: bool,
    at_root: bool,
}

/// The mathematical value of a walker: the directories still to visit, the
/// next one first, the two display flags, whether the root was handed out,
/// and whether the directory handed out last is the root.
pub ghost struct WalkerView {
    pub pending: Seq<Seq<char>>,
    pub show_hidden: bool,
    pub long: bool,
    pub started: bool,
    pub at_root: bool,
}

impl View for Walker {
    type V = WalkerView;

    closed spec fn view(&self) -> WalkerView {
        WalkerView {
            pending: texts(self.pending@),
            show_hidden: self.show_hidden,
            long: self.long,
            started: self.started,
            at_root: self.at_root,
        }
    }
}

fn child_path_text(dir: &String, name: &String) -> (r: String)
    ensures
        r@ == child_path(dir@, name@),
{
    proof {
        reveal_strlit("/");
    }
    let mut out = dir.clone();
    out.append("/");
    out.append(name.as_str());
    out
}

fn child_paths(dir: &String, files: &Vec<File>, show_hidden: bool) -> (r: Vec<String>)
    ensures
        texts(r@) == children(dir@, views(files@), show_hidden),
{
    proof {
        reveal_strlit(".");
        reveal_strlit("..");
    }
    let ghost all = views(files@);
    let here = String::from_str(".");
    let up = String::from_str("..");
    let mut out: Vec<String> = Vec::new();
    let mut i: usize = 0;
    while i < files.len()
        invariant
            i <= files@.len(),
            all == views(files@),
            here@ == dot(),
            up@ == dot_dot(),
            texts(out@) == children(dir@, all.take(i as int), show_hidden),
        decreases files@.len() - i,
    {
        assert(all.take(i + 1).drop_last() =~= all.take(i as int));
        assert(all.take(i + 1).last() == files@[i as int]@);
        let f = &files[i];
        if f.is_dir && (show_hidden || !is_hidden_name(&f.name)) && !(f.name == here) && !(f.name
            == up) {
            let p = child_path_text(dir, &f.name);
            out.push(p);
        }
        assert(texts(out@) =~= children(dir@, all.take(i + 1), show_hidden));
        i = i + 1;
    }
    assert(all.take(files@.len() as int) =~= all);
    out
}

impl Walker {
    /// A walk that starts at `root`.
    pub fn new(root: String, show_hidden: bool, long: bool) -> (r: Walker)
        ensures
            r@ == (WalkerView {
                pending: seq![root@],
                show_hidden,
                long,
                started: false,
                at_root: false,
            }),
    {
        let mut pending: Vec<String> = Vec::new();
        pending.push(root);
        let r = Walker { pending, show_hidden, long, started: false, at_root: false };
        assert(r@.pending =~= seq![root@]);
        r
    }

    /// Takes the next directory to visit, with whether its listing gets the
    /// synthetic `.` and `..` entries (only the root's does, and only when
    /// hidden entries are shown); `None` when the walk is over.
    pub fn next_dir(&mut self) -> (r: Option<(String, bool)>)
        ensures
            old(self)@.pending.len() == 0 ==> r is None && final(self)@ == old(self)@,
            old(self)@.pending.len() > 0 ==> {
                &&& r matches Some((dir, synthetic))
                &&& dir@ == old(self)@.pending[0]
                &&& synthetic == (old(self)@.show_hidden && !old(self)@.started)
                &&& final(self)@ == (WalkerView {
                    pending: old(self)@.pending.drop_first(),
                    started: true,
                    at_root: !old(self)@.started,
                    ..old(self)@
                })
            },
    {
        if self.pending.len() == 0 {
            None
        } else {
            let dir = self.pending.remove(0);
            let synthetic = self.show_hidden && !self.started;
            self.at_root = !self.started;
            self.started = true;
            assert(self@.pending =~= old(self)@.pending.drop_first());
            Some((dir, synthetic))
        }
    }

    /// Settles a directory handed out last that could not be read: the walk
    /// stops when it is the root, and then nothing stays pending; otherwise
    /// it is skipped and the walk goes on with the directories still pending.
    pub fn skip_unreadable(&mut self) -> (stop: bool)
        ensures
            stop == old(self)@.at_root,
            stop ==> final(self)@ == (WalkerView { pending: Seq::empty(), ..old(self)@ }),
            !stop ==> final(self)@ == old(self)@,
    {
        if self.at_root {
            self.pending = Vec::new();
            assert(self@.pending =~= Seq::<Seq<char>>::empty());
            true
        } else {
            false
        }
    }

    /// Visits `dir`, whose records are `files`: returns the text printed for it
    /// and puts the subdirectories to enter ahead of the directories still
    /// pending, in the order of the records.
    pub fn visit(&mut self, dir: &String, files: &Vec<File>) -> (r: String)
        ensures
            r@ == section(dir@, views(files@), old(self)@.show_hidden, old(self)@.long),
            final(self)@ == (WalkerView {
                pending: children(dir@, views(files@), old(self)@.show_hidden) + old(
                    self,
                )@.pending,
                ..old(self)@
            }),
    {
        proof {
            reveal_strlit(":\n");
            reveal_strlit("\n");
        }
        let mut out = dir.clone();
        out.append(":\n");
        out.append(render_files(files, self.show_hidden, self.long).as_str());
        out.append("\n");
        let mut next = child_paths(dir, files, self.show_hidden);
        next.append(&mut self.pending);
        self.pending = next;
        assert(self@.pending =~= children(dir@, views(files@), old(self)@.show_hidden) + old(
            self,
        )@.pending);
        assert(out@ =~= section(dir@, views(files@), old(self)@.show_hidden, old(self)@.long));
        out
    }
}

} // verus!
