//! Watching a folder for new images.
//!
//! The page that watches performs the outside work: it lists the folder, runs the
//! import and keeps a timer. What to do next is decided here, from the watch state and
//! what came back.
use vstd::prelude::*;

use crate::raw_preview::{extension_listed, has_extension};
use crate::text::{ascending, decimal, holds_text, insert_text, push_decimal, text_lt, texts};

verus! {

/// The tag of the tether page. It holds no slash, which would make it an image path.
pub const TETHER_PAGE_TAG: &'static str = "tether";

/// The line that says there is no camera.
pub const TETHER_NO_CAMERA_TEXT: &'static str =
    "No camera detected — live capture needs libgphoto2, which this build does not ship";

/// The line while a watch begins to scan.
pub const WATCH_SCANNING_TEXT: &'static str = "Watching \u{2014} scanning\u{2026}";

/// Seconds between two scans.
pub const WATCH_INTERVAL_SECS: u64 = 5;

/// Whether a path is one that an import would take, by its extension.
pub fn is_watch_candidate(path: &str, extensions: &[&str]) -> (r: bool)
    ensures
        r == extension_listed(path@, extensions@),
{
    has_extension(path, extensions)
}

/// The paths of a listing that an import would take.
pub open spec fn candidates(listing: Seq<String>, extensions: Seq<&str>) -> Seq<String>
    decreases listing.len(),
{
    if listing.len() == 0 {
        listing
    } else if extension_listed(listing.last()@, extensions) {
        candidates(listing.drop_last(), extensions).push(listing.last())
    } else {
        candidates(listing.drop_last(), extensions)
    }
}

/// Picks from the files of a folder those that an import would take.
pub fn watch_candidates(listing: &Vec<String>, extensions: &[&str]) -> (r: Vec<String>)
    ensures
        r@ == candidates(listing@, extensions@),
{
    let mut out: Vec<String> = Vec::new();
    let mut i: usize = 0;
    assert(candidates(listing@.take(0), extensions@) =~= out@);
    while i < listing.len()
        invariant
            i <= listing@.len(),
            out@ == candidates(listing@.take(i as int), extensions@),
        decreases listing@.len() - i,
    {
        assert(listing@.take(i + 1).drop_last() =~= listing@.take(i as int));
        if is_watch_candidate(listing[i].as_str(), extensions) {
            out.push(listing[i].clone());
        }
        i = i + 1;
    }
    assert(listing@.take(i as int) =~= listing@);
    out
}

/// The texts of a list that a second list does not hold.
pub open spec fn unknown(known: Seq<Seq<char>>, current: Seq<Seq<char>>) -> Seq<Seq<char>>
    decreases current.len(),
{
    if current.len() == 0 {
        current
    } else if known.contains(current.last()) {
        unknown(known, current.drop_last())
    } else {
        unknown(known, current.drop_last()).push(current.last())
    }
}

/// The files of a listing that are not known yet, in ascending order.
pub fn new_files(known: &Vec<String>, current: &Vec<String>) -> (r: Vec<String>)
    ensures
        ascending(texts(r@)),
        forall|i: int, j: int|
            0 <= i < j < r@.len() ==> !text_lt((#[trigger] r@[j])@, (#[trigger] r@[i])@),
        texts(r@).to_multiset() == unknown(texts(known@), texts(current@)).to_multiset(),
        r@.len() == unknown(texts(known@), texts(current@)).len(),
{
    let mut out: Vec<String> = Vec::new();
    let mut i: usize = 0;
    assert(unknown(texts(known@), texts(current@).take(0)) =~= texts(out@));
    while i < current.len()
        invariant
            i <= current@.len(),
            ascending(texts(out@)),
            texts(out@).to_multiset() == unknown(
                texts(known@),
                texts(current@).take(i as int),
            ).to_multiset(),
            out@.len() == unknown(texts(known@), texts(current@).take(i as int)).len(),
        decreases current@.len() - i,
    {
        broadcast use vstd::seq_lib::group_to_multiset_ensures;

        let ghost before = unknown(texts(known@), texts(current@).take(i as int));
        assert(texts(current@).take(i + 1).drop_last() =~= texts(current@).take(i as int));
        assert(texts(current@).take(i + 1).last() == current@[i as int]@);
        if !holds_text(known, current[i].as_str()) {
            insert_text(&mut out, current[i].clone());
            assert(before.push(current@[i as int]@).to_multiset() =~= before.to_multiset().insert(
                current@[i as int]@,
            ));
        }
        i = i + 1;
    }
    assert(texts(current@).take(i as int) =~= texts(current@));
    assert forall|i: int, j: int| 0 <= i < j < out@.len() implies !text_lt(
        (#[trigger] out@[j])@,
        (#[trigger] out@[i])@,
    ) by {
        assert(texts(out@)[i] == out@[i]@ && texts(out@)[j] == out@[j]@);
    }
    out
}

/// The line that names the watched folder.
pub fn format_watch_path(path: Option<&str>) -> (r: String)
    ensures
        r@ == match path {
            Some(p) => if p@.len() > 0 {
                "Watch folder: "@ + p@
            } else {
                "Watch folder: none"@
            },
            None => "Watch folder: none"@,
        },
{
    match path {
        Some(p) => {
            if !p.is_empty() {
                let mut s = "Watch folder: ".to_owned();
                s.append(p);
                return s;
            }
        },
        None => {},
    }
    "Watch folder: none".to_owned()
}

/// The line after a scan: how many images came in, or that there were none.
pub open spec fn import_status(new_count: nat) -> Seq<char> {
    if new_count == 0 {
        "No new images"@
    } else {
        decimal(new_count) + " new image(s) imported"@
    }
}

/// The line after a scan.
pub fn format_import_status(new_count: usize) -> (r: String)
    ensures
        r@ == import_status(new_count as nat),
        new_count == 0 ==> r@ == "No new images"@,
        new_count > 0 ==> r@ == decimal(new_count as nat) + " new image(s) imported"@,
{
    if new_count == 0 {
        return "No new images".to_owned();
    }
    let mut s = String::new();
    push_decimal(&mut s, new_count as u64);
    s.append(" new image(s) imported");
    assert(s@ =~= import_status(new_count as nat));
    s
}

/// The state of a watch.
pub struct WatchState {
    /// The folder to watch, once one is chosen.
    pub watch_path: Option<String>,
    /// Whether watching is switched on.
    pub watching: bool,
    /// Whether a scan is under way.
    pub busy: bool,
    /// Whether the page is showing.
    pub active: bool,
    /// Whether a timer is running.
    pub timer_live: bool,
    /// The files that were accounted for.
    pub known: Vec<String>,
}

/// What pressing the watch button comes to.
#[derive(Clone, Copy, Debug, PartialEq, Eq, Structural)]
pub enum Press {
    /// Watching stopped.
    Stopped,
    /// There is no folder to watch.
    NoFolder,
    /// Watching started. With `arm`, a timer is to be started and a first scan run.
    Started { arm: bool },
}

/// What a listing comes to.
#[derive(Clone, Copy, Debug, PartialEq, Eq, Structural)]
pub enum Listing {
    /// The folder is gone; the scan is over.
    Unavailable,
    /// Nothing is new; the scan is over.
    Quiet,
    /// This many files are new; the folder is to be imported.
    Import { fresh: usize },
}

impl WatchState {
    /// The files that were accounted for.
    pub open spec fn known_files(self) -> Set<Seq<char>> {
        texts(self.known@).to_set()
    }

    /// Whether a timer runs for a watch that is on, while its page is shown. Every step
    /// keeps this.
    pub open spec fn timed(self) -> bool {
        self.watching && self.active ==> self.timer_live
    }

    /// A watch that has not started.
    pub fn new() -> (r: WatchState)
        ensures
            r.watch_path is None,
            !r.watching,
            !r.busy,
            r.active,
            !r.timer_live,
            r.known@.len() == 0,
            r.timed(),
    {
        WatchState {
            watch_path: None,
            watching: false,
            busy: false,
            active: true,
            timer_live: false,
            known: Vec::new(),
        }
    }

    /// A folder was chosen: it is watched from now on, and all of it is new. Returns
    /// whether a scan is to be announced.
    pub fn choose_folder(&mut self, dir: String) -> (announce: bool)
        ensures
            announce == old(self).watching,
            final(self).watch_path == Some(dir),
            final(self).known@.len() == 0,
            final(self).watching == old(self).watching,
            final(self).busy == old(self).busy,
            final(self).active == old(self).active,
            final(self).timer_live == old(self).timer_live,
            old(self).timed() ==> final(self).timed(),
    {
        self.watch_path = Some(dir);
        self.known = Vec::new();
        self.watching
    }

    /// The watch button was pressed.
    pub fn press(&mut self) -> (r: Press)
        ensures
            old(self).watching ==> {
                &&& r == Press::Stopped
                &&& !final(self).watching
                &&& final(self).known == old(self).known
                &&& final(self).timer_live == old(self).timer_live
            },
            !old(self).watching && old(self).watch_path is None ==> r == Press::NoFolder
                && *final(self) == *old(self),
            !old(self).watching && old(self).watch_path is Some ==> r == (Press::Started {
                arm: !old(self).timer_live,
            }) && final(self).watching && final(self).known@.len() == 0 && final(self).timer_live,
            final(self).watch_path == old(self).watch_path,
            final(self).busy == old(self).busy,
            final(self).active == old(self).active,
            old(self).timed() ==> final(self).timed(),
    {
        if self.watching {
            self.watching = false;
            return Press::Stopped;
        }
        if self.watch_path.is_none() {
            return Press::NoFolder;
        }
        self.watching = true;
        self.known = Vec::new();
        let arm: bool = !self.timer_live;
        self.timer_live = true;
        Press::Started { arm }
    }

    /// Starts a scan, unless the page is hidden, watching is off, a scan is under way or
    /// there is no folder. Returns the folder to list.
    pub fn begin_scan(&mut self) -> (r: Option<String>)
        ensures
            ({
                let may = old(self).active && old(self).watching && !old(self).busy
                    && old(self).watch_path is Some;
                &&& r == if may { old(self).watch_path } else { None }
                &&& final(self).busy == (may || old(self).busy)
            }),
            final(self).watch_path == old(self).watch_path,
            final(self).watching == old(self).watching,
            final(self).active == old(self).active,
            final(self).timer_live == old(self).timer_live,
            final(self).known == old(self).known,
            old(self).timed() ==> final(self).timed(),
    {
        if !self.active || !self.watching || self.busy {
            return None;
        }
        match &self.watch_path {
            Some(dir) => {
                let dir: String = dir.clone();
                self.busy = true;
                Some(dir)
            },
            None => None,
        }
    }

    /// The folder was listed. When anything is new the whole listing is accounted for
    /// before the import runs, so that no later scan takes it up again.
    pub fn listed(&mut self, current: &Vec<String>, folder_exists: bool) -> (r: Listing)
        ensures
            ({
                let fresh = unknown(texts(old(self).known@), texts(current@)).len();
                &&& r == if !folder_exists {
                    Listing::Unavailable
                } else if fresh == 0 {
                    Listing::Quiet
                } else {
                    Listing::Import { fresh: fresh as usize }
                }
                &&& final(self).busy == (r is Import && old(self).busy)
                &&& r is Import ==> final(self).known_files() == old(self).known_files().union(
                    texts(current@).to_set(),
                )
                &&& r !is Import ==> final(self).known == old(self).known
            }),
            final(self).watch_path == old(self).watch_path,
            final(self).watching == old(self).watching,
            final(self).active == old(self).active,
            final(self).timer_live == old(self).timer_live,
            old(self).timed() ==> final(self).timed(),
    {
        if !folder_exists {
            self.busy = false;
            return Listing::Unavailable;
        }
        let fresh: usize = new_files(&self.known, current).len();
        if fresh == 0 {
            self.busy = false;
            return Listing::Quiet;
        }
        let ghost before = texts(self.known@);
        let mut i: usize = 0;
        assert(texts(current@).take(0).to_set() =~= Set::<Seq<char>>::empty());
        assert(before.to_set().union(texts(current@).take(0).to_set()) =~= before.to_set());
        while i < current.len()
            invariant
                i <= current@.len(),
                texts(self.known@).to_set() == before.to_set().union(
                    texts(current@).take(i as int).to_set(),
                ),
                self.watch_path == old(self).watch_path,
                self.watching == old(self).watching,
                self.busy == old(self).busy,
                self.active == old(self).active,
                self.timer_live == old(self).timer_live,
            decreases current@.len() - i,
        {
            let ghost list = texts(self.known@);
            let ghost text = current@[i as int]@;
            assert(texts(current@).take(i + 1) =~= texts(current@).take(i as int).push(text));
            proof {
                lemma_push_to_set(texts(current@).take(i as int), text);
                lemma_push_to_set(list, text);
            }
            if !holds_text(&self.known, current[i].as_str()) {
                self.known.push(current[i].clone());
                assert(texts(self.known@) =~= list.push(text));
                assert(texts(self.known@).to_set() =~= before.to_set().union(
                    texts(current@).take(i + 1).to_set(),
                ));
            } else {
                assert(list.to_set() =~= before.to_set().union(
                    texts(current@).take(i + 1).to_set(),
                ));
            }
            i = i + 1;
        }
        assert(texts(current@).take(i as int) =~= texts(current@));
        Listing::Import { fresh }
    }

    /// The import came back. Returns the line to show, and whether the collection is to
    /// be shown anew.
    pub fn imported(&mut self, fresh: usize, ok: bool) -> (r: (String, bool))
        ensures
            r.0@ == if ok {
                import_status(fresh as nat)
            } else {
                "Watch error: import failed — see log"@
            },
            ok && fresh == 0 ==> r.0@ == "No new images"@,
            ok && fresh > 0 ==> r.0@ == decimal(fresh as nat) + " new image(s) imported"@,
            r.1 == ok,
            !final(self).busy,
            final(self).watch_path == old(self).watch_path,
            final(self).watching == old(self).watching,
            final(self).active == old(self).active,
            final(self).timer_live == old(self).timer_live,
            final(self).known == old(self).known,
            old(self).timed() ==> final(self).timed(),
    {
        self.busy = false;
        if ok {
            (format_import_status(fresh), true)
        } else {
            ("Watch error: import failed — see log".to_owned(), false)
        }
    }

    /// The timer ticked. Returns whether it keeps running, and so whether to scan.
    pub fn tick(&mut self) -> (again: bool)
        ensures
            again == (old(self).active && old(self).watching),
            final(self).timer_live == (again && old(self).timer_live),
            final(self).watch_path == old(self).watch_path,
            final(self).watching == old(self).watching,
            final(self).busy == old(self).busy,
            final(self).active == old(self).active,
            final(self).known == old(self).known,
            old(self).timed() ==> final(self).timed(),
    {
        if self.active && self.watching {
            return true;
        }
        self.timer_live = false;
        false
    }

    /// The page was hidden.
    pub fn unmapped(&mut self)
        ensures
            !final(self).active,
            final(self).watch_path == old(self).watch_path,
            final(self).watching == old(self).watching,
            final(self).busy == old(self).busy,
            final(self).timer_live == old(self).timer_live,
            final(self).known == old(self).known,
            old(self).timed() ==> final(self).timed(),
    {
        self.active = false;
    }

    /// The page was shown. A watch that is on goes on. Returns whether a timer is to be
    /// started.
    pub fn mapped(&mut self) -> (arm: bool)
        ensures
            arm == (old(self).watching && !old(self).timer_live),
            final(self).active == (old(self).watching || old(self).active),
            final(self).timer_live == (old(self).watching || old(self).timer_live),
            final(self).watch_path == old(self).watch_path,
            final(self).watching == old(self).watching,
            final(self).busy == old(self).busy,
            final(self).known == old(self).known,
            old(self).timed() ==> final(self).timed(),
    {
        if !self.watching {
            return false;
        }
        let arm = !self.timer_live;
        self.active = true;
        self.timer_live = true;
        arm
    }
}

/// The line for each way a listing ends a scan; none when an import follows.
pub fn listing_status(outcome: Listing) -> (r: Option<String>)
    ensures
        match outcome {
            Listing::Unavailable => r is Some && r->0@ == "Watch folder unavailable"@,
            Listing::Quiet => r is Some && r->0@ == import_status(0) && r->0@ == "No new images"@,
            Listing::Import { .. } => r is None,
        },
{
    match outcome {
        Listing::Unavailable => Some("Watch folder unavailable".to_owned()),
        Listing::Quiet => Some(format_import_status(0)),
        Listing::Import { .. } => None,
    }
}

/// What the page shows after the watch button was pressed: the new label of the button,
/// where it changes, and the status line.
pub fn press_lines(press: Press) -> (r: (Option<&'static str>, &'static str))
    ensures
        match press {
            Press::Stopped => r.0 is Some && r.0->0@ == "Start watching"@ && r.1@
                == "Not watching"@,
            Press::NoFolder => r.0 is None && r.1@ == "Choose a watch folder first"@,
            Press::Started { .. } => r.0 is Some && r.0->0@ == "Stop watching"@ && r.1@
                == WATCH_SCANNING_TEXT@ && r.1@ == "Watching \u{2014} scanning\u{2026}"@,
        },
{
    match press {
        Press::Stopped => (Some("Start watching"), "Not watching"),
        Press::NoFolder => (None, "Choose a watch folder first"),
        Press::Started { .. } => (Some("Stop watching"), WATCH_SCANNING_TEXT),
    }
}

proof fn lemma_push_to_set(s: Seq<Seq<char>>, x: Seq<char>)
    ensures
        s.push(x).to_set() == s.to_set().insert(x),
{
    let t = s.push(x);
    assert forall|y: Seq<char>| t.to_set().contains(y) <==> s.to_set().insert(x).contains(y) by {
        if s.contains(y) {
            let i = choose|i: int| 0 <= i < s.len() && s[i] == y;
            assert(t[i] == y);
        }
        if y == x {
            assert(t[s.len() as int] == y);
        }
        if t.contains(y) {
            let i = choose|i: int| 0 <= i < t.len() && t[i] == y;
            assert(i < s.len() ==> s[i] == y);
        }
    }
    assert(t.to_set() =~= s.to_set().insert(x));
}

/// A listing that is wholly accounted for has nothing new. So what one scan imports, no
/// later scan takes up again until the watch starts over.
pub proof fn law_known_files_are_not_new(known: Seq<Seq<char>>, current: Seq<Seq<char>>)
    requires
        forall|i: int| 0 <= i < current.len() ==> known.contains(#[trigger] current[i]),
    ensures
        unknown(known, current).len() == 0,
    decreases current.len(),
{
    if current.len() > 0 {
        assert(known.contains(current[current.len() - 1]));
        let rest = current.drop_last();
        assert forall|i: int| 0 <= i < rest.len() implies known.contains(#[trigger] rest[i]) by {
            assert(known.contains(current[i]));
        }
        law_known_files_are_not_new(known, rest);
    }
}

/// After a listing that leads to an import, the same listing has nothing new: the next scan
/// does not take its files up again.
pub proof fn law_imported_files_are_known(before: WatchState, after: WatchState, current: Seq<String>)
    requires
        after.known_files() == before.known_files().union(texts(current).to_set()),
    ensures
        unknown(texts(after.known@), texts(current)).len() == 0,
{
    let names = texts(current);
    assert forall|i: int| 0 <= i < names.len() implies texts(after.known@).contains(
        #[trigger] names[i],
    ) by {
        assert(names.contains(names[i]));
        assert(names.to_set().contains(names[i]));
        assert(after.known_files().contains(names[i]));
    }
    law_known_files_are_not_new(texts(after.known@), names);
}

/// With nothing accounted for, everything is new.
pub proof fn law_first_scan_takes_everything(current: Seq<Seq<char>>)
    ensures
        unknown(seq![], current) == current,
    decreases current.len(),
{
    if current.len() > 0 {
        law_first_scan_takes_everything(current.drop_last());
        assert(current.drop_last().push(current.last()) =~= current);
    }
}

/// The files that an import takes are those of the folder whose extension is listed, in the
/// order in which they are listed.
pub proof fn law_candidates_are_the_listed_extensions(listing: Seq<String>, extensions: Seq<&str>)
    ensures
        candidates(listing, extensions) == listing.filter(
            |path: String| extension_listed(path@, extensions),
        ),
    decreases listing.len(),
{
    reveal(Seq::filter);
    if listing.len() > 0 {
        law_candidates_are_the_listed_extensions(listing.drop_last(), extensions);
    } else {
        assert(listing.filter(|path: String| extension_listed(path@, extensions)) =~= listing);
    }
}

/// What is new in a listing is what is not known, each as often as it is listed.
pub proof fn law_new_is_what_is_not_known(known: Seq<Seq<char>>, current: Seq<Seq<char>>)
    ensures
        unknown(known, current) == current.filter(|path: Seq<char>| !known.contains(path)),
    decreases current.len(),
{
    reveal(Seq::filter);
    if current.len() > 0 {
        law_new_is_what_is_not_known(known, current.drop_last());
    } else {
        assert(current.filter(|path: Seq<char>| !known.contains(path)) =~= current);
    }
}

} // verus!
