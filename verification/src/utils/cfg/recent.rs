use vstd::prelude::*;
use vstd::seq_lib::*;
use crate::utils::cfg::{
    DefaultBytes,
    bytes_or_empty,
    deserialize_or_default,
    bytes_of,
    encoded,
    serialize,
    stored,
    written,
    zstd_decoded,
};
use crate::utils::cfg::flags::Flags;

verus! {

/// The name of the file that keeps the list between runs.
pub const DIR: &'static str = ".recents";

/// A list of paths as contracts see it: the text of each path, in order.
pub open spec fn texts(paths: Seq<String>) -> Seq<Seq<char>> {
    paths.map_values(|path: String| path@)
}

/// A copy of a list of paths.
pub fn copy_paths(paths: &[String]) -> (copy: Vec<String>)
    ensures
        texts(copy@) == texts(paths@),
{
    let mut copy: Vec<String> = Vec::new();
    let mut i: usize = 0;
    while i < paths.len()
        invariant
            i <= paths.len(),
            copy.len() == i,
            forall|j: int| 0 <= j < i ==> copy[j]@ == paths[j]@,
        decreases paths.len() - i,
    {
        copy.push(paths[i].clone());
        i += 1;
    }
    assert(texts(copy@) =~= texts(paths@));
    copy
}

/// `list` with every entry equal to `path` taken out.
pub open spec fn without(list: Seq<Seq<char>>, path: Seq<char>) -> Seq<Seq<char>> {
    list.filter(|entry: Seq<char>| entry != path)
}

/// `list` cut down to its last `cap` entries.
pub open spec fn newest(list: Seq<Seq<char>>, cap: nat) -> Seq<Seq<char>> {
    if list.len() <= cap {
        list
    } else {
        list.skip(list.len() - cap)
    }
}

/// The list after `path` was opened: `path` moves to the end, where the most
/// recently used entry stands, and the oldest entries leave until no more
/// than `cap` are left.
pub open spec fn touched(list: Seq<Seq<char>>, path: Seq<char>, cap: nat) -> Seq<Seq<char>> {
    newest(without(list, path).push(path), cap)
}

/// The files opened last, oldest first. No path stands in it twice.
#[derive(Debug, PartialEq, Eq)]
pub struct Recent(Vec<String>);

impl View for Recent {
    type V = Seq<Seq<char>>;

    closed spec fn view(&self) -> Seq<Seq<char>> {
        texts(self.0@)
    }
}

impl Clone for Recent {
    fn clone(&self) -> (list: Self)
        ensures
            list@ == self@,
    {
        proof {
            use_type_invariant(self);
        }
        Recent(copy_paths(self.0.as_slice()))
    }
}

impl Default for Recent {
    fn default() -> (list: Self)
        ensures
            list@ == Seq::<Seq<char>>::empty(),
    {
        let paths: Vec<String> = Vec::new();
        assert(texts(paths@) =~= Seq::empty());
        Recent(paths)
    }
}

/// The list that a file holds which lists `paths`: `paths`, or nothing
/// where a path stands twice in it, which no list does that was written
/// from here.
pub open spec fn accepted(paths: Seq<Seq<char>>) -> Seq<Seq<char>> {
    if paths.no_duplicates() {
        paths
    } else {
        Seq::empty()
    }
}

/// Whether a path stands twice in the list.
fn repeats(paths: &Vec<String>) -> (yes: bool)
    ensures
        yes == !texts(paths@).no_duplicates(),
{
    let ghost list = texts(paths@);
    let mut i: usize = 0;
    while i < paths.len()
        invariant
            i <= paths.len(),
            list == texts(paths@),
            forall|a: int, b: int| 0 <= a < i && 0 <= b < list.len() && a != b ==> list[a] != list[b],
        decreases paths.len() - i,
    {
        let mut j: usize = 0;
        while j < paths.len()
            invariant
                i < paths.len(),
                j <= paths.len(),
                list == texts(paths@),
                forall|b: int| 0 <= b < j && b != i ==> list[i as int] != list[b],
            decreases paths.len() - j,
        {
            if j != i && paths[i] == paths[j] {
                proof {
                    assert(list[i as int] == list[j as int]);
                }
                return true;
            }
            j += 1;
        }
        i += 1;
    }
    false
}

impl Recent {
    #[verifier::type_invariant]
    spec fn distinct(&self) -> bool {
        texts(self.0@).no_duplicates()
    }

    /// The list that a file of these bytes holds. A file that cannot be
    /// read, or lists a path twice, holds the empty list.
    pub fn read(bytes: &[u8]) -> (list: Self)
        ensures
            list@ == accepted(stored(bytes@)),
    {
        Self::from_paths(deserialize_or_default(bytes))
    }

    /// The list of these paths, oldest first; the empty list where a path
    /// stands twice among them.
    pub fn from_paths(paths: Vec<String>) -> (list: Self)
        ensures
            list@ == accepted(texts(paths@)),
    {
        if repeats(&paths) {
            Self::default()
        } else {
            Recent(paths)
        }
    }

    /// The bytes of a file that holds the list: a zstd frame of the list as
    /// bincode writes it. Read again, they give the list back. There are
    /// none where bincode or zstd makes nothing of the list.
    pub fn write(&self) -> (bytes: Option<Vec<u8>>)
        ensures
            bytes_of(bytes) == written(self@),
            bytes matches Some(bytes) ==> zstd_decoded(bytes@) == Some(encoded(self@)),
            bytes matches Some(bytes) ==> accepted(stored(bytes@)) == self@,
    {
        proof {
            use_type_invariant(self);
        }
        serialize(&self.0)
    }

    /// Cuts the list down to the newest entries that the settings allow.
    pub fn truncate(&mut self, flags: &Flags)
        ensures
            final(self)@ == newest(old(self)@, flags.max_recents() as nat),
            final(self)@.no_duplicates(),
            final(self)@.len() <= flags.max_recents(),
    {
        proof {
            use_type_invariant(&*self);
        }
        let cap = flags.max_recents();
        if self.0.len() > cap {
            let ghost list = texts(self.0@);
            let start = self.0.len() - cap;
            let mut kept: Vec<String> = Vec::new();
            let mut i: usize = start;
            while i < self.0.len()
                invariant
                    start <= i <= self.0.len(),
                    list == texts(self.0@),
                    kept.len() == i - start,
                    forall|j: int| 0 <= j < kept.len() ==> kept[j]@ == list[start + j],
                decreases self.0.len() - i,
            {
                kept.push(self.0[i].clone());
                i += 1;
            }
            proof {
                assert(texts(kept@) =~= list.skip(start as int));
                lemma_newest_distinct(list, cap as nat);
            }
            self.0 = kept;
        }
    }

    /// Records that `path` was opened.
    pub fn add(&mut self, flags: &Flags, path: String)
        ensures
            final(self)@ == touched(old(self)@, path@, flags.max_recents() as nat),
            final(self)@.no_duplicates(),
            final(self)@.len() <= flags.max_recents(),
    {
        proof {
            use_type_invariant(&*self);
        }
        let cap = flags.max_recents();
        let ghost list = texts(self.0@);
        let mut kept: Vec<String> = Vec::new();
        let mut i: usize = 0;
        while i < self.0.len()
            invariant
                i <= self.0.len(),
                list == texts(self.0@),
                texts(kept@) == without(list.take(i as int), path@),
            decreases self.0.len() - i,
        {
            proof {
                let keep = |entry: Seq<char>| entry != path@;
                assert(list.take(i as int + 1) == list.take(i as int).push(list[i as int]));
                list.take(i as int).lemma_filter_push(list[i as int], keep);
            }
            if self.0[i] != path {
                let entry = self.0[i].clone();
                proof {
                    assert(texts(kept@.push(entry)) == texts(kept@).push(entry@));
                }
                kept.push(entry);
            }
            i += 1;
        }
        proof {
            assert(list.take(i as int) == list);
            assert(texts(kept@.push(path)) == texts(kept@).push(path@));
        }
        kept.push(path);
        let ghost moved = texts(kept@);
        while kept.len() > cap
            invariant
                kept.len() <= moved.len(),
                moved.len() <= cap ==> kept.len() == moved.len(),
                moved.len() > cap ==> kept.len() >= cap,
                texts(kept@) == moved.skip(moved.len() - kept.len()),
            decreases kept.len(),
        {
            let ghost before = texts(kept@);
            kept.remove(0);
            proof {
                assert(texts(kept@) == before.skip(1));
            }
        }
        proof {
            assert(moved.skip(0) == moved);
            lemma_touched_distinct(list, path@, cap as nat);
        }
        self.0 = kept;
    }

    /// The paths, oldest first.
    pub fn get_inner(&self) -> (paths: &[String])
        ensures
            texts(paths@) == self@,
            self@.no_duplicates(),
    {
        proof {
            use_type_invariant(self);
        }
        self.0.as_slice()
    }
}

impl DefaultBytes for Recent {
    /// The bytes of a file that holds the empty list: a zstd frame of the
    /// empty list as bincode writes it, which reads as the empty list. No
    /// bytes where bincode or zstd makes nothing of the empty list.
    fn default_bytes() -> (bytes: Vec<u8>)
        ensures
            bytes@ == match written(Seq::empty()) {
                Some(frame) => frame,
                None => Seq::empty(),
            },
            bytes@.len() == 0 || (zstd_decoded(bytes@) == Some(encoded(Seq::empty()))
                && accepted(stored(bytes@)) == Seq::<Seq<char>>::empty()),
    {
        bytes_or_empty(Self::default().write())
    }
}

/// Cutting a list without repeats down leaves no repeats.
pub proof fn lemma_newest_distinct(list: Seq<Seq<char>>, cap: nat)
    requires
        list.no_duplicates(),
    ensures
        newest(list, cap).no_duplicates(),
        newest(list, cap).len() <= cap,
{
    let cut = newest(list, cap);
    assert forall|i: int, j: int| 0 <= i < cut.len() && 0 <= j < cut.len() && i != j
        implies cut[i] != cut[j] by {
        let shift = list.len() - cut.len();
        assert(cut[i] == list[i + shift]);
        assert(cut[j] == list[j + shift]);
    }
}

/// Opening a path keeps a list without repeats free of repeats, and within
/// the number of entries that it may hold.
pub proof fn lemma_touched_distinct(list: Seq<Seq<char>>, path: Seq<char>, cap: nat)
    requires
        list.no_duplicates(),
    ensures
        touched(list, path, cap).no_duplicates(),
        touched(list, path, cap).len() <= cap,
{
    let rest = without(list, path);
    lemma_without(list, path);
    let moved = rest.push(path);
    let cut = newest(moved, cap);
    assert forall|i: int, j: int| 0 <= i < cut.len() && 0 <= j < cut.len() && i != j
        implies cut[i] != cut[j] by {
        let shift = moved.len() - cut.len();
        assert(cut[i] == moved[i + shift]);
        assert(cut[j] == moved[j + shift]);
    }
}

/// Opening a path puts it at the end of the list, where the most recently
/// used entry stands, unless the list may hold nothing.
pub proof fn lemma_touched_is_newest(list: Seq<Seq<char>>, path: Seq<char>, cap: nat)
    requires
        cap > 0,
    ensures
        touched(list, path, cap).len() > 0,
        touched(list, path, cap).last() == path,
{
}

/// Opening a path that the list holds moves it to the end and leaves the
/// others in their order: the list does not grow.
pub proof fn lemma_touched_moves(list: Seq<Seq<char>>, path: Seq<char>, cap: nat)
    requires
        list.no_duplicates(),
        list.contains(path),
        list.len() <= cap,
    ensures
        touched(list, path, cap) == without(list, path).push(path),
        touched(list, path, cap).len() == list.len(),
{
    lemma_without_len(list, path);
}

/// Opening a path that the list does not hold adds it at the end, and the
/// oldest entry leaves where the list was full.
pub proof fn lemma_touched_adds(list: Seq<Seq<char>>, path: Seq<char>, cap: nat)
    requires
        !list.contains(path),
    ensures
        touched(list, path, cap) == newest(list.push(path), cap),
{
    lemma_without_len(list, path);
}

/// How long a list is once a path is taken out, and that nothing happens
/// to a list that does not hold the path.
proof fn lemma_without_len(list: Seq<Seq<char>>, path: Seq<char>)
    ensures
        !list.contains(path) ==> without(list, path) == list,
        list.contains(path) && list.no_duplicates() ==> without(list, path).len() == list.len() - 1,
    decreases list.len(),
{
    reveal(Seq::filter);
    if list.len() > 0 {
        let front = list.drop_last();
        lemma_without_len(front, path);
        if !list.contains(path) {
            assert(list[list.len() - 1] != path);
            assert forall|i: int| 0 <= i < front.len() implies front[i] != path by {
                assert(list[i] == front[i]);
            }
            assert(!front.contains(path));
            assert(front.push(list.last()) == list);
        } else if list.no_duplicates() {
            let k = choose|k: int| 0 <= k < list.len() && list[k] == path;
            if list.last() == path {
                assert forall|i: int| 0 <= i < front.len() implies front[i] != path by {
                    assert(list[i] == front[i]);
                }
                assert(!front.contains(path));
            } else {
                assert(front[k] == path);
                assert(front.contains(path));
            }
        }
    }
}

/// What is left of a list without repeats when a path is taken out: no
/// repeats, nothing that was not there, and not that path.
proof fn lemma_without(list: Seq<Seq<char>>, path: Seq<char>)
    requires
        list.no_duplicates(),
    ensures
        without(list, path).no_duplicates(),
        !without(list, path).contains(path),
        forall|entry: Seq<char>| #[trigger]
            without(list, path).contains(entry) ==> list.contains(entry),
    decreases list.len(),
{
    reveal(Seq::filter);
    if list.len() > 0 {
        let front = list.drop_last();
        lemma_without(front, path);
        let kept = without(front, path);
        assert forall|i: int| 0 <= i < kept.len() implies kept[i] != list.last() by {
            assert(without(front, path).contains(kept[i]));
            assert(front.contains(kept[i]));
            let k = choose|k: int| 0 <= k < front.len() && front[k] == kept[i];
            assert(list[k] == front[k]);
        }
        assert forall|entry: Seq<char>| without(list, path).contains(entry) implies list.contains(
            entry,
        ) by {
            let k = choose|k: int| 0 <= k < without(list, path).len() && without(list, path)[k] == entry;
            if k < kept.len() {
                assert(without(front, path).contains(kept[k]));
                assert(front.contains(entry));
                let m = choose|m: int| 0 <= m < front.len() && front[m] == entry;
                assert(list[m] == entry);
            } else {
                assert(list[list.len() - 1] == entry);
            }
        }
    }
}

} // verus!
