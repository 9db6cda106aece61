pub mod cursor;
pub mod savefiles;
pub mod text;

use vstd::prelude::*;

verus! {

/// The games whose save files can be snapshotted.
#[derive(Clone, Copy, PartialEq, Eq, Structural, Hash, Debug)]
pub enum Game {
    DarkSoulsIII,
    EldenRing,
}

impl Game {
    /// The display name of the game.
    pub open spec fn name_seq(self) -> Seq<char> {
        match self {
            Game::DarkSoulsIII => "Dark Souls III"@,
            Game::EldenRing => "Elden Ring"@,
        }
    }

    pub fn name(&self) -> (r: String)
        ensures
            r@ == self.name_seq(),
    {
        match self {
            Game::DarkSoulsIII => String::from_str("Dark Souls III"),
            Game::EldenRing => String::from_str("Elden Ring"),
        }
    }
}

/// How long a transient message stays readable, in milliseconds.
pub const MESSAGE_TTL_MILLIS: u64 = 5000;

/// A value that logically expires: reads return it only while its lifetime
/// has not elapsed. Time is a millisecond timestamp supplied by the caller,
/// so expiry is plain state inspection with no clock of its own.
pub struct SelfDestructible<T> {
    val: T,
    created: u64,
    ttl: u64,
}

impl<T> SelfDestructible<T> {
    pub closed spec fn value(&self) -> T {
        self.val
    }

    pub closed spec fn created_at(&self) -> u64 {
        self.created
    }

    pub closed spec fn lifetime(&self) -> u64 {
        self.ttl
    }

    /// Whether the value is still readable at time `now`.
    pub open spec fn live_at(&self, now: u64) -> bool {
        (now as int) < self.created_at() + self.lifetime()
    }

    pub fn new(val: T, now: u64, lifetime: u64) -> (r: Self)
        ensures
            r.value() == val,
            r.created_at() == now,
            r.lifetime() == lifetime,
    {
        SelfDestructible { val, created: now, ttl: lifetime }
    }

    /// The value, or nothing once `lifetime` has elapsed since creation.
    pub fn get(&self, now: u64) -> (r: Option<&T>)
        ensures
            r is Some <==> self.live_at(now),
            r matches Some(v) ==> *v == self.value(),
    {
        if now >= self.created {
            if now - self.created < self.ttl {
                Some(&self.val)
            } else {
                None
            }
        } else {
            Some(&self.val)
        }
    }
}

/// A value with a positive lifetime is readable at the moment it is
/// created, and is absent at any time from `lifetime` after its creation
/// on: `get` returns the value exactly on the times `live_at` admits.
pub proof fn lemma_message_expiry<T>(m: SelfDestructible<T>, now: u64)
    ensures
        m.lifetime() > 0 ==> m.live_at(m.created_at()),
        now as int >= m.created_at() + m.lifetime() ==> !m.live_at(now),
{
}

/// The entries of a history that may not exist yet: absent means empty.
pub open spec fn hist_items(h: Option<cursor::Cursor<savefiles::Savefile>>) -> Seq<
    savefiles::Savefile,
> {
    match h {
        Some(c) => c.items(),
        None => Seq::empty(),
    }
}

/// The current index of a history that may not exist yet: absent means 0.
pub open spec fn hist_cur(h: Option<cursor::Cursor<savefiles::Savefile>>) -> int {
    match h {
        Some(c) => c.cur(),
        None => 0,
    }
}

/// One independent snapshot history per game, created lazily on first
/// access and never removed during a session.
pub struct Registry {
    ds3: Option<cursor::Cursor<savefiles::Savefile>>,
    er: Option<cursor::Cursor<savefiles::Savefile>>,
}

impl Registry {
    /// The history held for `g`, absent until first accessed.
    pub closed spec fn entry(self, g: Game) -> Option<cursor::Cursor<savefiles::Savefile>> {
        match g {
            Game::DarkSoulsIII => self.ds3,
            Game::EldenRing => self.er,
        }
    }

    /// Every history that exists keeps its index in bounds.
    pub open spec fn wf(self) -> bool {
        forall|g: Game| (#[trigger] self.entry(g)) matches Some(h) ==> h.wf()
    }

    pub fn new() -> (r: Self)
        ensures
            forall|g: Game| (#[trigger] r.entry(g)) is None,
            r.wf(),
    {
        Registry { ds3: None, er: None }
    }

    /// Read-only lookup: the history for `g`, or nothing if none has been
    /// created yet.
    pub fn snapshots_for(&self, g: Game) -> (r: Option<&cursor::Cursor<savefiles::Savefile>>)
        ensures
            r matches Some(h) ==> self.entry(g) == Some(*h),
            r is None <==> self.entry(g) is None,
    {
        match g {
            Game::DarkSoulsIII => self.ds3.as_ref(),
            Game::EldenRing => self.er.as_ref(),
        }
    }

    /// The history for `g`, created empty on first access. Never fails, and
    /// never touches the other game's history.
    pub fn history_for(&mut self, g: Game) -> (h: &mut cursor::Cursor<savefiles::Savefile>)
        ensures
            old(self).entry(g) matches Some(c) ==> *h == c,
            old(self).entry(g) is None ==> (*h).items() == Seq::<savefiles::Savefile>::empty()
                && (*h).cur() == 0,
            final(self).entry(g) == Some(*final(h)),
            forall|g2: Game| g2 != g ==> final(self).entry(g2) == old(self).entry(g2),
    {
        match g {
            Game::DarkSoulsIII => {
                if self.ds3.is_none() {
                    self.ds3 = Some(cursor::Cursor::new(Vec::new()));
                }
                self.ds3.as_mut().unwrap()
            },
            Game::EldenRing => {
                if self.er.is_none() {
                    self.er = Some(cursor::Cursor::new(Vec::new()));
                }
                self.er.as_mut().unwrap()
            },
        }
    }
}

/// Where navigation lands: one step forward saturates at the last entry, one
/// step back saturates at 0, and an empty history stays at 0.
pub open spec fn nav_result(cur: int, len: nat, forward: bool) -> int {
    if forward {
        if len == 0 {
            0
        } else if cur + 1 < len {
            cur + 1
        } else {
            cur
        }
    } else {
        if cur > 0 {
            cur - 1
        } else {
            0
        }
    }
}

/// The session state: the discovered save locations with the active one
/// selected, one snapshot history per game, the current transient message,
/// and the counter that hands out snapshot ordinals.
pub struct App {
    savefile_paths: cursor::Cursor<savefiles::SavefilePath>,
    savefiles: Registry,
    message: Option<SelfDestructible<String>>,
    next_uid: usize,
}

impl App {
    pub closed spec fn paths(&self) -> cursor::Cursor<savefiles::SavefilePath> {
        self.savefile_paths
    }

    pub closed spec fn registry(&self) -> Registry {
        self.savefiles
    }

    pub closed spec fn message_spec(&self) -> Option<SelfDestructible<String>> {
        self.message
    }

    pub closed spec fn uid_counter(&self) -> usize {
        self.next_uid
    }

    pub open spec fn wf(&self) -> bool {
        self.paths().wf() && self.registry().wf()
    }

    /// Whether any save location was discovered; the operations below that
    /// speak of "the active profile" ask for this.
    pub open spec fn has_active(&self) -> bool {
        self.paths().items().len() > 0
    }

    pub open spec fn active_path(&self) -> savefiles::SavefilePath
        recommends
            self.has_active(),
    {
        self.paths().items()[self.paths().cur()]
    }

    pub open spec fn active_game(&self) -> Game
        recommends
            self.has_active(),
    {
        self.active_path().game
    }

    pub open spec fn history_of(&self, g: Game) -> Option<cursor::Cursor<savefiles::Savefile>> {
        self.registry().entry(g)
    }

    /// What holds of a state after navigating the active history one step:
    /// only that history's current index moves, and it moves as `nav_result`
    /// says; the history exists afterwards (created empty if it did not).
    pub open spec fn navigated(pre: App, post: App, forward: bool) -> bool {
        let g = pre.active_game();
        &&& post.wf()
        &&& post.paths() == pre.paths()
        &&& post.message_spec() == pre.message_spec()
        &&& post.uid_counter() == pre.uid_counter()
        &&& (forall|g2: Game| g2 != g ==> post.history_of(g2) == pre.history_of(g2))
        &&& post.history_of(g) is Some
        &&& hist_items(post.history_of(g)) == hist_items(pre.history_of(g))
        &&& hist_cur(post.history_of(g)) == nav_result(
            hist_cur(pre.history_of(g)),
            hist_items(pre.history_of(g)).len(),
            forward,
        )
    }

    /// A fresh session over the discovered save locations, with the first
    /// one active, no histories yet, and no message.
    pub fn new(paths: Vec<savefiles::SavefilePath>) -> (r: Self)
        ensures
            r.paths().items() == paths@,
            r.paths().cur() == 0,
            forall|g: Game| (#[trigger] r.history_of(g)) is None,
            r.message_spec() is None,
            r.uid_counter() == 0,
            r.wf(),
    {
        App {
            savefile_paths: cursor::Cursor::new(paths),
            savefiles: Registry::new(),
            message: None,
            next_uid: 0,
        }
    }

    /// How many snapshot ordinals have been handed out. Callers that cannot
    /// see the ghost state check this against `usize::MAX` before `save`.
    pub fn uids_issued(&self) -> (r: usize)
        ensures
            r == self.uid_counter(),
    {
        self.next_uid
    }

    /// The discovered save locations and the selector state, read-only, for
    /// a rendering pass.
    pub fn locations(&self) -> (r: &cursor::Cursor<savefiles::SavefilePath>)
        ensures
            *r == self.paths(),
    {
        &self.savefile_paths
    }

    /// The save location currently targeted.
    pub fn current_savefile_path(&self) -> (r: &savefiles::SavefilePath)
        requires
            self.wf(),
            self.has_active(),
        ensures
            *r == self.active_path(),
    {
        self.savefile_paths.get()
    }

    /// The active profile's history, or nothing if no snapshot has been
    /// taken for it yet.
    pub fn current_savefiles(&self) -> (r: Option<&cursor::Cursor<savefiles::Savefile>>)
        requires
            self.wf(),
            self.has_active(),
        ensures
            r matches Some(h) ==> self.history_of(self.active_game()) == Some(*h),
            r is None <==> self.history_of(self.active_game()) is None,
    {
        let g = self.current_savefile_path().game;
        self.savefiles.snapshots_for(g)
    }

    /// Advance the active profile's selection by one entry.
    pub fn next_slot(&mut self)
        requires
            old(self).wf(),
            old(self).has_active(),
        ensures
            App::navigated(*old(self), *final(self), true),
    {
        let g = self.current_savefile_path().game;
        let h = self.savefiles.history_for(g);
        if h.len() > 0 {
            h.next();
        }
    }

    /// Retreat the active profile's selection by one entry.
    pub fn prev_slot(&mut self)
        requires
            old(self).wf(),
            old(self).has_active(),
        ensures
            App::navigated(*old(self), *final(self), false),
    {
        let g = self.current_savefile_path().game;
        let h = self.savefiles.history_for(g);
        if h.len() > 0 {
            h.prev();
        }
    }

    /// Move the active profile's selection to its newest entry.
    pub fn goto_last(&mut self)
        requires
            old(self).wf(),
            old(self).has_active(),
        ensures
            final(self).wf(),
            final(self).paths() == old(self).paths(),
            final(self).message_spec() == old(self).message_spec(),
            final(self).uid_counter() == old(self).uid_counter(),
            forall|g2: Game|
                g2 != old(self).active_game() ==> final(self).history_of(g2) == old(
                    self,
                ).history_of(g2),
            final(self).history_of(old(self).active_game()) is Some,
            hist_items(final(self).history_of(old(self).active_game())) == hist_items(
                old(self).history_of(old(self).active_game()),
            ),
            hist_cur(final(self).history_of(old(self).active_game())) == if hist_items(
                old(self).history_of(old(self).active_game()),
            ).len() == 0 {
                0
            } else {
                hist_items(old(self).history_of(old(self).active_game())).len() - 1
            },
    {
        let g = self.current_savefile_path().game;
        let h = self.savefiles.history_for(g);
        let n = h.len();
        if n > 0 {
            h.goto(n - 1);
        }
    }

    /// Record a freshly captured save file: append it to the active
    /// profile's history, select it, stamp it with the next unique ordinal,
    /// and announce it with a transient message. The caller reads the bytes
    /// from disk first; a failed read never reaches this function, so the
    /// message and the histories are then left untouched.
    pub fn save(&mut self, data: Vec<u8>, now: u64)
        requires
            old(self).wf(),
            old(self).has_active(),
            old(self).uid_counter() < usize::MAX,
        ensures
            final(self).wf(),
            final(self).paths() == old(self).paths(),
            final(self).uid_counter() == old(self).uid_counter() + 1,
            forall|g2: Game|
                g2 != old(self).active_game() ==> final(self).history_of(g2) == old(
                    self,
                ).history_of(g2),
            ({
                let g = old(self).active_game();
                let items0 = hist_items(old(self).history_of(g));
                let items1 = hist_items(final(self).history_of(g));
                &&& final(self).history_of(g) is Some
                &&& items1 == items0.push(items1.last())
                &&& items1.last().data@ == data@
                &&& items1.last().saved == now
                &&& items1.last().uid == old(self).uid_counter()
                &&& hist_cur(final(self).history_of(g)) == items1.len() - 1
            }),
            final(self).message_spec() matches Some(m) && m.value()@ == "Saved"@
                && m.created_at() == now && m.lifetime() == MESSAGE_TTL_MILLIS,
    {
        let g = self.current_savefile_path().game;
        let uid = self.next_uid;
        self.next_uid = self.next_uid + 1;
        let record = savefiles::Savefile::new(data, now, uid);
        let h = self.savefiles.history_for(g);
        h.push(record);
        let n = h.len();
        h.goto(n - 1);
        self.message = Some(
            SelfDestructible::new(String::from_str("Saved"), now, MESSAGE_TTL_MILLIS),
        );
    }

    /// What restoring the current selection would write: the selected
    /// snapshot's bytes and its index, or nothing when the active profile's
    /// history is absent or empty (a harmless no-op). Read-only: the caller
    /// performs the write and only then records it with `confirm_restored`,
    /// so a failed write leaves all state, message included, untouched.
    pub fn load(&self) -> (r: Option<(Vec<u8>, usize)>)
        requires
            self.wf(),
            self.has_active(),
        ensures
            ({
                let items = hist_items(self.history_of(self.active_game()));
                let cur = hist_cur(self.history_of(self.active_game()));
                if items.len() == 0 {
                    r is None
                } else {
                    r matches Some(p) && p.0@ == items[cur].data@ && p.1 as int == cur
                }
            }),
    {
        match self.current_savefiles() {
            Some(h) => {
                if h.len() == 0 {
                    None
                } else {
                    let idx = h.index();
                    let bytes = h.get().data.clone();
                    Some((bytes, idx))
                }
            },
            None => None,
        }
    }

    /// What restoring the entry at `idx` would write, or nothing when no
    /// such entry exists. The current selection is not consulted or moved.
    pub fn load_at(&self, idx: usize) -> (r: Option<Vec<u8>>)
        requires
            self.wf(),
            self.has_active(),
        ensures
            ({
                let items = hist_items(self.history_of(self.active_game()));
                &&& (r is Some <==> idx < items.len())
                &&& (r matches Some(bytes) ==> bytes@ == items[idx as int].data@)
            }),
    {
        match self.current_savefiles() {
            Some(h) => match h.get_at(idx) {
                Some(s) => Some(s.data.clone()),
                None => None,
            },
            None => None,
        }
    }

    /// Record that the entry at `idx` was written back successfully: set the
    /// transient message naming the index and the active game. Nothing else
    /// changes.
    pub fn confirm_restored(&mut self, idx: usize, now: u64)
        requires
            old(self).wf(),
            old(self).has_active(),
        ensures
            final(self).wf(),
            final(self).paths() == old(self).paths(),
            final(self).uid_counter() == old(self).uid_counter(),
            forall|g2: Game| final(self).history_of(g2) == old(self).history_of(g2),
            final(self).message_spec() matches Some(m) && m.value()@ == text::loaded_msg_seq(
                idx as nat,
                old(self).active_game(),
            ) && m.created_at() == now && m.lifetime() == MESSAGE_TTL_MILLIS,
    {
        let g = self.current_savefile_path().game;
        let msg = text::loaded_msg_string(idx, g);
        self.message = Some(SelfDestructible::new(msg, now, MESSAGE_TTL_MILLIS));
    }

    /// Remove the entry at `idx` from the active profile's history; an
    /// out-of-range index (in particular, any index on an empty history) is
    /// a harmless no-op. The selection is clamped to the last valid index.
    pub fn remove_at(&mut self, idx: usize)
        requires
            old(self).wf(),
            old(self).has_active(),
        ensures
            final(self).wf(),
            final(self).paths() == old(self).paths(),
            final(self).message_spec() == old(self).message_spec(),
            final(self).uid_counter() == old(self).uid_counter(),
            forall|g2: Game|
                g2 != old(self).active_game() ==> final(self).history_of(g2) == old(
                    self,
                ).history_of(g2),
            final(self).history_of(old(self).active_game()) is Some,
            ({
                let g = old(self).active_game();
                let items0 = hist_items(old(self).history_of(g));
                let cur0 = hist_cur(old(self).history_of(g));
                if idx < items0.len() {
                    &&& hist_items(final(self).history_of(g)) == items0.remove(idx as int)
                    &&& hist_cur(final(self).history_of(g)) == cursor::clamp_index(
                        cur0,
                        (items0.len() - 1) as nat,
                    )
                } else {
                    &&& hist_items(final(self).history_of(g)) == items0
                    &&& hist_cur(final(self).history_of(g)) == cur0
                }
            }),
    {
        let g = self.current_savefile_path().game;
        let h = self.savefiles.history_for(g);
        if idx < h.len() {
            h.remove(idx);
        }
    }

    /// Switch the active save location. Out-of-range requests are rejected
    /// and change nothing. No profile's snapshot history, selection or
    /// message is touched either way: each profile's state persists across
    /// switches.
    pub fn select_path(&mut self, idx: usize) -> (r: bool)
        requires
            old(self).wf(),
        ensures
            final(self).wf(),
            r == (idx < old(self).paths().items().len()),
            final(self).paths().items() == old(self).paths().items(),
            r ==> final(self).paths().cur() == idx,
            !r ==> final(self).paths().cur() == old(self).paths().cur(),
            final(self).registry() == old(self).registry(),
            final(self).message_spec() == old(self).message_spec(),
            final(self).uid_counter() == old(self).uid_counter(),
    {
        self.savefile_paths.goto(idx)
    }

    /// The current transient message, or nothing once it has expired (or
    /// none was ever set). Expiry is checked lazily on read.
    pub fn message(&self, now: u64) -> (r: Option<&String>)
        ensures
            r is Some <==> (self.message_spec() matches Some(m) && m.live_at(now)),
            r matches Some(s) ==> (self.message_spec() matches Some(m) && *s == m.value()),
    {
        match &self.message {
            Some(m) => m.get(now),
            None => None,
        }
    }
}

/// What a tick's input asks of the driver beyond navigation: nothing, a
/// capture (which needs the save file read from disk), or a restore (which
/// needs the selected snapshot written back).
#[derive(Clone, Copy, PartialEq, Eq, Structural, Debug)]
pub enum TickAction {
    Idle,
    Capture,
    Restore,
}

impl App {
    /// One tick's input handling, from the four polled booleans, in
    /// priority order: advance, else retreat, else capture, else
    /// restore. Navigation is applied here; capture and restore need file
    /// I/O, so they are reported back for the driver to perform through
    /// `save`, `load` and `confirm_restored`.
    pub fn update_inputs(&mut self, next: bool, prev: bool, save: bool, load: bool) -> (r:
        TickAction)
        requires
            old(self).wf(),
            old(self).has_active(),
        ensures
            final(self).wf(),
            final(self).has_active(),
            if next {
                App::navigated(*old(self), *final(self), true) && r == TickAction::Idle
            } else if prev {
                App::navigated(*old(self), *final(self), false) && r == TickAction::Idle
            } else if save {
                *final(self) == *old(self) && r == TickAction::Capture
            } else if load {
                *final(self) == *old(self) && r == TickAction::Restore
            } else {
                *final(self) == *old(self) && r == TickAction::Idle
            },
    {
        if next {
            self.next_slot();
            TickAction::Idle
        } else if prev {
            self.prev_slot();
            TickAction::Idle
        } else if save {
            TickAction::Capture
        } else if load {
            TickAction::Restore
        } else {
            TickAction::Idle
        }
    }
}

} // verus!
