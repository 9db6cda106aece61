use vstd::prelude::*;
use crate::Game;

verus! {

/// One captured copy of a save file: the bytes, the capture time (a
/// millisecond timestamp supplied by the caller) and a unique ordinal used
/// only for display.
pub struct Savefile {
    pub data: Vec<u8>,
    pub saved: u64,
    pub uid: usize,
}

impl Savefile {
    pub fn new(data: Vec<u8>, saved: u64, uid: usize) -> (r: Self)
        ensures
            r.data@ == data@,
            r.saved == saved,
            r.uid == uid,
    {
        Savefile { data, saved, uid }
    }

    /// When this snapshot was captured.
    pub fn saved(&self) -> (r: u64)
        ensures
            r == self.saved,
    {
        self.saved
    }
}

/// One discovered on-disk save location: which game it belongs to and the
/// full path of its save file.
pub struct SavefilePath {
    pub game: Game,
    pub path: String,
}

/// Whether `c` is a lower-case hexadecimal digit.
pub open spec fn is_hex_char(c: char) -> bool {
    ('0' as u32 <= c as u32 && c as u32 <= '9' as u32) || ('a' as u32 <= c as u32 && c as u32
        <= 'f' as u32)
}

/// Whether `s` is a non-empty run of lower-case hexadecimal digits, the
/// shape of the per-profile directory names under a game's save-data root.
pub open spec fn is_hex_name_seq(s: Seq<char>) -> bool {
    s.len() > 0 && forall|i: int| 0 <= i < s.len() ==> is_hex_char(#[trigger] s[i])
}

pub fn is_hex_name(s: &str) -> (r: bool)
    ensures
        r == is_hex_name_seq(s@),
{
    let n = s.unicode_len();
    if n == 0 {
        return false;
    }
    let mut i: usize = 0;
    while i < n
        invariant
            n == s@.len(),
            0 < n,
            i <= n,
            forall|j: int| 0 <= j < i ==> is_hex_char(#[trigger] s@[j]),
        decreases n - i,
    {
        let c = s.get_char(i);
        let u = c as u32;
        if !(('0' as u32 <= u && u <= '9' as u32) || ('a' as u32 <= u && u <= 'f' as u32)) {
            proof {
                assert(!is_hex_char(s@[i as int]));
            }
            return false;
        }
        i += 1;
    }
    true
}

/// What discovery learns about one entry of a game's save-data root.
pub struct DirEntry {
    pub name: String,
    pub is_dir: bool,
}

/// Whether a directory entry names a per-profile save directory.
pub open spec fn is_candidate(e: DirEntry) -> bool {
    e.is_dir && is_hex_name_seq(e.name@)
}

/// The names of the candidate directories among `s`, in order.
pub open spec fn candidate_names(s: Seq<DirEntry>) -> Seq<Seq<char>>
    decreases s.len(),
{
    if s.len() == 0 {
        Seq::empty()
    } else if is_candidate(s.last()) {
        candidate_names(s.drop_last()).push(s.last().name@)
    } else {
        candidate_names(s.drop_last())
    }
}

/// Keep, in order, the names of the entries that are directories named by a
/// non-empty run of lower-case hexadecimal digits.
pub fn candidate_dirs(entries: &Vec<DirEntry>) -> (r: Vec<String>)
    ensures
        r@.map_values(|s: String| s@) == candidate_names(entries@),
{
    let mut r: Vec<String> = Vec::new();
    let mut i: usize = 0;
    while i < entries.len()
        invariant
            i <= entries@.len(),
            r@.map_values(|s: String| s@) == candidate_names(entries@.subrange(0, i as int)),
        decreases entries@.len() - i,
    {
        let e = &entries[i];
        if e.is_dir && is_hex_name(e.name.as_str()) {
            r.push(e.name.clone());
        }
        i += 1;
        proof {
            let prefix = entries@.subrange(0, i as int);
            assert(prefix.drop_last() =~= entries@.subrange(0, i - 1));
            assert(prefix.last() == entries@[i - 1]);
            assert(r@.map_values(|s: String| s@) =~= candidate_names(prefix));
        }
    }
    proof {
        assert(entries@.subrange(0, entries@.len() as int) =~= entries@);
    }
    r
}

impl SavefilePath {
    /// All discovered save locations, Dark Souls III first, then Elden Ring,
    /// each list in the order it was discovered.
    pub fn get_all(ds3: Vec<String>, er: Vec<String>) -> (r: Vec<SavefilePath>)
        ensures
            r@.len() == ds3@.len() + er@.len(),
            forall|i: int|
                0 <= i < ds3@.len() ==> (#[trigger] r@[i]).game == Game::DarkSoulsIII && r@[i].path
                    == ds3@[i],
            forall|i: int|
                0 <= i < er@.len() ==> (#[trigger] r@[ds3@.len() + i]).game == Game::EldenRing
                    && r@[ds3@.len() + i].path == er@[i],
    {
        let mut r: Vec<SavefilePath> = Vec::new();
        let mut i: usize = 0;
        while i < ds3.len()
            invariant
                i <= ds3@.len(),
                r@.len() == i,
                forall|j: int|
                    0 <= j < i ==> (#[trigger] r@[j]).game == Game::DarkSoulsIII && r@[j].path
                        == ds3@[j],
            decreases ds3@.len() - i,
        {
            r.push(SavefilePath { game: Game::DarkSoulsIII, path: ds3[i].clone() });
            i += 1;
        }
        let mut k: usize = 0;
        while k < er.len()
            invariant
                k <= er@.len(),
                r@.len() == ds3@.len() + k,
                forall|j: int|
                    0 <= j < ds3@.len() ==> (#[trigger] r@[j]).game == Game::DarkSoulsIII
                        && r@[j].path == ds3@[j],
                forall|j: int|
                    0 <= j < k ==> (#[trigger] r@[ds3@.len() + j]).game == Game::EldenRing
                        && r@[ds3@.len() + j].path == er@[j],
            decreases er@.len() - k,
        {
            r.push(SavefilePath { game: Game::EldenRing, path: er[k].clone() });
            k += 1;
        }
        r
    }

    /// The label shown for this location: the game's name, then the path,
    /// shortened to an ellipsis and its final 32 characters when longer than
    /// 32 characters.
    pub open spec fn display_seq(self) -> Seq<char> {
        if self.path@.len() > 32 {
            self.game.name_seq() + ": "@ + "..."@ + self.path@.subrange(
                self.path@.len() - 32,
                self.path@.len() as int,
            )
        } else {
            self.game.name_seq() + ": "@ + self.path@
        }
    }

    pub fn display(&self) -> (r: String)
        ensures
            r@ == self.display_seq(),
    {
        let mut r = self.game.name();
        r.append(": ");
        let n = self.path.as_str().unicode_len();
        if n > 32 {
            r.append("...");
            r.append(self.path.as_str().substring_char(n - 32, n));
        } else {
            r.append(self.path.as_str());
        }
        r
    }
}

} // verus!
