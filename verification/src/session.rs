//! The session registry: a store of live sessions keyed by target.
//!
//! A key is the canonical dump path or the raw connection string.  The
//! registry decides reuse (get-or-create), exclusive close, and bulk close;
//! a driver serializes calls into it (one lock around the whole store) and
//! owns the spawned processes themselves.  The registry entry counts the
//! shared handles that are out for its key, so a close can tell whether it
//! holds the session exclusively.
//!
//! Creation claims the key before any spawning starts: `get_or_create_*`
//! inserts the entry and hands back the spawn plan in one step, so a second
//! request for the same key — however the calls interleave around the store
//! lock — finds the key present and shares, and at most one process is ever
//! spawned per key.

use vstd::prelude::*;
use vstd::seq_lib::*;
use vstd::string::*;

use crate::cdb::CdbSession;
use crate::cdb::SessionKind;
use crate::cdb::SessionState;
use crate::cdb::SpawnPlan;
use crate::cdb::dump_key_spec;
use crate::cdb::dump_session_key;
use crate::cdb::spawn_args_spec;
use crate::error::CdbError;
use crate::error::SessionError;

verus! {

/// One registry slot: a key, and how many shared handles to its session
/// are currently out.
pub struct SessionEntry {
    /// The target key the session is stored under.
    pub key: String,
    /// Shared handles currently held by callers.  The entry's session is
    /// closed only when this is zero.
    pub holders: u64,
}

/// Some entry carries `key`.
pub open spec fn has_key(entries: Seq<SessionEntry>, key: Seq<char>) -> bool {
    exists|i: int| 0 <= i < entries.len() && entries[i].key@ == key
}

/// The index of the entry carrying `key` (meaningful when `has_key`).
pub open spec fn key_index(entries: Seq<SessionEntry>, key: Seq<char>) -> int {
    choose|i: int| 0 <= i < entries.len() && entries[i].key@ == key
}

/// No two entries share a key: at most one session exists per target.
pub open spec fn keys_distinct(entries: Seq<SessionEntry>) -> bool {
    forall|i: int, j: int|
        0 <= i < j < entries.len() ==> entries[i].key@ != entries[j].key@
}

/// `post` is `pre` with one more shared handle out for `key`: the effect
/// of a get-or-create call that found its key present.
pub open spec fn shares_entry(
    pre: Seq<SessionEntry>,
    post: Seq<SessionEntry>,
    key: Seq<char>,
) -> bool {
    &&& has_key(pre, key)
    &&& post == pre.update(key_index(pre, key), (SessionEntry {
        key: pre[key_index(pre, key)].key,
        holders: (pre[key_index(pre, key)].holders + 1) as u64,
    }))
}

/// `post` is `pre` with a fresh entry for `key` appended, one handle out:
/// the effect of a get-or-create call that claimed its key.
pub open spec fn creates_entry(
    pre: Seq<SessionEntry>,
    post: Seq<SessionEntry>,
    key: Seq<char>,
) -> bool {
    &&& !has_key(pre, key)
    &&& post.len() == pre.len() + 1
    &&& forall|i: int| 0 <= i < pre.len() ==> post[i] == pre[i]
    &&& post.last().key@ == key
    &&& post.last().holders == 1
}

/// `post` is `pre` with the entry of `key` removed, which a close may do
/// only when no handle is out for it.
pub open spec fn removes_entry(
    pre: Seq<SessionEntry>,
    post: Seq<SessionEntry>,
    key: Seq<char>,
) -> bool {
    &&& has_key(pre, key)
    &&& pre[key_index(pre, key)].holders == 0
    &&& post == pre.remove(key_index(pre, key))
}

/// What a get-or-create call grants.
#[derive(Debug)]
pub enum SessionGrant {
    /// The key was already present: share the stored session.
    Existing,
    /// The key was claimed by this call: the caller owns the new session
    /// machine and must spawn the process from the plan, then run the
    /// startup handshake, before commands can be sent.
    Created(CdbSession, SpawnPlan),
}

/// The session registry.
pub struct SessionManager {
    /// The live entries; keys are pairwise distinct.
    pub entries: Vec<SessionEntry>,
    /// Command timeout, in seconds, given to new sessions.
    pub default_timeout_secs: u64,
    /// Startup-handshake timeout, in seconds, given to new sessions.
    pub default_init_timeout_secs: u64,
    /// Verbosity flag given to new sessions.
    pub verbose: bool,
}

impl SessionManager {
    /// The registry's invariant: one entry per key.
    pub open spec fn wf(&self) -> bool {
        keys_distinct(self.entries@)
    }

    /// The configuration fields are untouched.
    pub open spec fn same_config(&self, other: &SessionManager) -> bool {
        self.default_timeout_secs == other.default_timeout_secs
            && self.default_init_timeout_secs == other.default_init_timeout_secs
            && self.verbose == other.verbose
    }

    /// Create an empty registry with the given per-session defaults.
    pub fn new(default_timeout_secs: u64, default_init_timeout_secs: u64, verbose: bool) -> (r:
        SessionManager)
        ensures
            r.wf(),
            r.entries@.len() == 0,
            r.default_timeout_secs == default_timeout_secs,
            r.default_init_timeout_secs == default_init_timeout_secs,
            r.verbose == verbose,
    {
        SessionManager {
            entries: Vec::new(),
            default_timeout_secs,
            default_init_timeout_secs,
            verbose,
        }
    }

    /// How many keys are currently present.
    pub fn active_session_count(&self) -> (r: usize)
        ensures
            r == self.entries@.len(),
    {
        self.entries.len()
    }

    /// Find the slot of `key`, if any.
    fn find_entry(&self, key: &String) -> (r: Option<usize>)
        ensures
            match r {
                Option::Some(i) => i < self.entries@.len() && self.entries@[i as int].key@
                    == key@,
                Option::None => !has_key(self.entries@, key@),
            },
    {
        let mut i: usize = 0;
        while i < self.entries.len()
            invariant
                0 <= i <= self.entries@.len(),
                forall|k: int| 0 <= k < i ==> self.entries@[k].key@ != key@,
            decreases self.entries@.len() - i,
        {
            if self.entries[i].key.eq(key) {
                return Some(i);
            }
            i = i + 1;
        }
        None
    }

    /// Share the session under `key`, or claim `key` and hand back a new
    /// session for it.  The claim is made here, before any spawning, so a
    /// later call for the same key shares instead of creating: at most one
    /// session is ever created per key.
    ///
    /// `kind` and `target` shape the new session; `key` identifies it.
    /// Fails with `CreationFailed(ExecutableNotFound)` when the key is
    /// absent and no executable was discovered.
    fn get_or_share(
        &mut self,
        key: String,
        kind: SessionKind,
        target: &String,
        cdb_exe: Option<String>,
        symbols_path: Option<String>,
    ) -> (r: Result<SessionGrant, SessionError>)
        requires
            old(self).wf(),
            forall|i: int|
                0 <= i < old(self).entries@.len() ==> old(self).entries@[i].holders
                    < u64::MAX,
        ensures
            final(self).wf(),
            final(self).same_config(old(self)),
            has_key(old(self).entries@, key@) ==> ({
                &&& r matches Ok(SessionGrant::Existing)
                &&& shares_entry(old(self).entries@, final(self).entries@, key@)
            }),
            !has_key(old(self).entries@, key@) && cdb_exe is None ==> ({
                &&& r == Err::<SessionGrant, SessionError>(SessionError::CreationFailed(
                    CdbError::ExecutableNotFound,
                ))
                &&& final(self).entries@ == old(self).entries@
            }),
            !has_key(old(self).entries@, key@) && cdb_exe is Some ==> ({
                &&& r matches Ok(SessionGrant::Created(s, plan)) && ({
                    &&& s == (CdbSession {
                        session_id: s.session_id,
                        kind,
                        timeout_secs: old(self).default_timeout_secs,
                        init_timeout_secs: old(self).default_init_timeout_secs,
                        verbose: old(self).verbose,
                        state: SessionState::ReadyWait,
                        commands_sent: 0,
                    })
                    &&& s.session_id@ == key@
                    &&& plan.executable@ == cdb_exe.unwrap()@
                    &&& plan.args.deep_view() == spawn_args_spec(kind, target@)
                    &&& plan.symbols_path == symbols_path
                })
                &&& creates_entry(old(self).entries@, final(self).entries@, key@)
            }),
    {
        match self.find_entry(&key) {
            Option::Some(i) => {
                proof {
                    let j = key_index(self.entries@, key@);
                    assert(self.entries@[j].key@ == key@);
                    assert(j == i);
                }
                let h = self.entries[i].holders;
                self.entries[i].holders = h + 1;
                Ok(SessionGrant::Existing)
            },
            Option::None => {
                let exe = match cdb_exe {
                    Option::Some(e) => e,
                    Option::None => {
                        return Err(SessionError::CreationFailed(
                            CdbError::ExecutableNotFound,
                        ));
                    },
                };
                let session = CdbSession {
                    session_id: key.clone(),
                    kind,
                    timeout_secs: self.default_timeout_secs,
                    init_timeout_secs: self.default_init_timeout_secs,
                    verbose: self.verbose,
                    state: SessionState::ReadyWait,
                    commands_sent: 0,
                };
                let plan = SpawnPlan {
                    executable: exe,
                    args: crate::cdb::spawn_args(kind, target),
                    symbols_path,
                };
                self.entries.push(SessionEntry { key, holders: 1 });
                Ok(SessionGrant::Created(session, plan))
            },
        }
    }

    /// Get or create the session for a dump file.
    ///
    /// `path_exists` is whether the dump file is there (it is checked
    /// first: a missing file is `DumpFileNotFound`); `canonical` is the
    /// result of canonicalizing the path, `None` when that failed; and
    /// `cdb_exe` is the discovered debugger executable.  The key is the
    /// canonical path, falling back to the path as given.  Returns the key
    /// and either a share of the existing session or the freshly claimed
    /// one with its spawn plan.
    pub fn get_or_create_dump_session(
        &mut self,
        dump_path: &String,
        path_exists: bool,
        canonical: Option<String>,
        cdb_exe: Option<String>,
        symbols_path: Option<String>,
    ) -> (r: Result<(String, SessionGrant), SessionError>)
        requires
            old(self).wf(),
            forall|i: int|
                0 <= i < old(self).entries@.len() ==> old(self).entries@[i].holders
                    < u64::MAX,
        ensures
            final(self).wf(),
            final(self).same_config(old(self)),
            !path_exists ==> ({
                &&& r matches Err(SessionError::DumpFileNotFound(p)) && p@ == dump_path@
                &&& final(self).entries@ == old(self).entries@
            }),
            path_exists && has_key(
                old(self).entries@,
                dump_key_spec(dump_path@, canonical),
            ) ==> ({
                &&& r matches Ok((k, SessionGrant::Existing)) && k@ == dump_key_spec(
                    dump_path@,
                    canonical,
                )
                &&& shares_entry(
                    old(self).entries@,
                    final(self).entries@,
                    dump_key_spec(dump_path@, canonical),
                )
            }),
            path_exists && !has_key(old(self).entries@, dump_key_spec(dump_path@, canonical))
                && cdb_exe is None ==> ({
                &&& r matches Err(SessionError::CreationFailed(CdbError::ExecutableNotFound))
                &&& final(self).entries@ == old(self).entries@
            }),
            path_exists && !has_key(old(self).entries@, dump_key_spec(dump_path@, canonical))
                && cdb_exe is Some ==> ({
                &&& r matches Ok((k, SessionGrant::Created(s, plan))) && ({
                    &&& k@ == dump_key_spec(dump_path@, canonical)
                    &&& s == (CdbSession {
                        session_id: s.session_id,
                        kind: SessionKind::Dump,
                        timeout_secs: old(self).default_timeout_secs,
                        init_timeout_secs: old(self).default_init_timeout_secs,
                        verbose: old(self).verbose,
                        state: SessionState::ReadyWait,
                        commands_sent: 0,
                    })
                    &&& s.session_id@ == dump_key_spec(dump_path@, canonical)
                    &&& plan.executable@ == cdb_exe.unwrap()@
                    &&& plan.args.deep_view() == spawn_args_spec(SessionKind::Dump, dump_path@)
                    &&& plan.symbols_path == symbols_path
                })
                &&& creates_entry(
                    old(self).entries@,
                    final(self).entries@,
                    dump_key_spec(dump_path@, canonical),
                )
            }),
    {
        if !path_exists {
            return Err(SessionError::DumpFileNotFound(dump_path.clone()));
        }
        let key = dump_session_key(dump_path, canonical);
        let key_out = key.clone();
        match self.get_or_share(key, SessionKind::Dump, dump_path, cdb_exe, symbols_path) {
            Result::Ok(grant) => Ok((key_out, grant)),
            Result::Err(e) => Err(e),
        }
    }

    /// Get or create the session for a remote target.  The raw connection
    /// string, unnormalized, is the key.  Returns the key and either a
    /// share of the existing session or the freshly claimed one with its
    /// spawn plan.
    pub fn get_or_create_remote_session(
        &mut self,
        connection_string: &String,
        cdb_exe: Option<String>,
        symbols_path: Option<String>,
    ) -> (r: Result<(String, SessionGrant), SessionError>)
        requires
            old(self).wf(),
            forall|i: int|
                0 <= i < old(self).entries@.len() ==> old(self).entries@[i].holders
                    < u64::MAX,
        ensures
            final(self).wf(),
            final(self).same_config(old(self)),
            has_key(old(self).entries@, connection_string@) ==> ({
                &&& r matches Ok((k, SessionGrant::Existing)) && k@ == connection_string@
                &&& shares_entry(old(self).entries@, final(self).entries@, connection_string@)
            }),
            !has_key(old(self).entries@, connection_string@) && cdb_exe is None ==> ({
                &&& r matches Err(SessionError::CreationFailed(CdbError::ExecutableNotFound))
                &&& final(self).entries@ == old(self).entries@
            }),
            !has_key(old(self).entries@, connection_string@) && cdb_exe is Some ==> ({
                &&& r matches Ok((k, SessionGrant::Created(s, plan))) && ({
                    &&& k@ == connection_string@
                    &&& s == (CdbSession {
                        session_id: s.session_id,
                        kind: SessionKind::Remote,
                        timeout_secs: old(self).default_timeout_secs,
                        init_timeout_secs: old(self).default_init_timeout_secs,
                        verbose: old(self).verbose,
                        state: SessionState::ReadyWait,
                        commands_sent: 0,
                    })
                    &&& s.session_id@ == connection_string@
                    &&& plan.executable@ == cdb_exe.unwrap()@
                    &&& plan.args.deep_view() == spawn_args_spec(
                        SessionKind::Remote,
                        connection_string@,
                    )
                    &&& plan.symbols_path == symbols_path
                })
                &&& creates_entry(old(self).entries@, final(self).entries@, connection_string@)
            }),
    {
        let key = connection_string.clone();
        let key_out = connection_string.clone();
        match self.get_or_share(
            key,
            SessionKind::Remote,
            connection_string,
            cdb_exe,
            symbols_path,
        ) {
            Result::Ok(grant) => Ok((key_out, grant)),
            Result::Err(e) => Err(e),
        }
    }

    /// Close the session under `session_id`, exclusively.
    ///
    /// An absent key is `SessionNotFound` and changes nothing.  A key whose
    /// session still has holders out is "still in use": the entry stays,
    /// the session remains reachable, and nothing is shut down.  Only when
    /// no holder is left is the key removed; the caller then owns the
    /// session exclusively and runs its shutdown sequence.
    pub fn close_session(&mut self, session_id: &String) -> (r: Result<(), SessionError>)
        requires
            old(self).wf(),
        ensures
            final(self).wf(),
            final(self).same_config(old(self)),
            !has_key(old(self).entries@, session_id@) ==> ({
                &&& r matches Err(SessionError::SessionNotFound(s)) && s@ == session_id@
                &&& final(self).entries@ == old(self).entries@
            }),
            has_key(old(self).entries@, session_id@) && old(self).entries@[key_index(
                old(self).entries@,
                session_id@,
            )].holders > 0 ==> ({
                &&& r matches Err(SessionError::InvalidSessionId(m)) && m@
                    == "Session still in use: "@ + session_id@
                &&& final(self).entries@ == old(self).entries@
            }),
            has_key(old(self).entries@, session_id@) && old(self).entries@[key_index(
                old(self).entries@,
                session_id@,
            )].holders == 0 ==> ({
                &&& r is Ok
                &&& removes_entry(old(self).entries@, final(self).entries@, session_id@)
            }),
    {
        match self.find_entry(session_id) {
            Option::None => Err(SessionError::SessionNotFound(session_id.clone())),
            Option::Some(i) => {
                proof {
                    let j = key_index(self.entries@, session_id@);
                    assert(self.entries@[j].key@ == session_id@);
                    assert(j == i);
                }
                if self.entries[i].holders == 0 {
                    self.entries.remove(i);
                    Ok(())
                } else {
                    let mut m = String::from_str("Session still in use: ");
                    m.append(session_id.as_str());
                    Err(SessionError::InvalidSessionId(m))
                }
            },
        }
    }

    /// Give back one shared handle to the session under `session_id`.
    /// Absent keys, and entries with no holder out, are left alone.
    pub fn release_session(&mut self, session_id: &String)
        requires
            old(self).wf(),
        ensures
            final(self).wf(),
            final(self).same_config(old(self)),
            !has_key(old(self).entries@, session_id@) ==> final(self).entries@ == old(
                self,
            ).entries@,
            has_key(old(self).entries@, session_id@) ==> ({
                let i = key_index(old(self).entries@, session_id@);
                &&& old(self).entries@[i].holders > 0 ==> final(self).entries@ == old(
                    self,
                ).entries@.update(i, (SessionEntry {
                    key: old(self).entries@[i].key,
                    holders: (old(self).entries@[i].holders - 1) as u64,
                }))
                &&& old(self).entries@[i].holders == 0 ==> final(self).entries@ == old(
                    self,
                ).entries@
            }),
    {
        match self.find_entry(session_id) {
            Option::None => {},
            Option::Some(i) => {
                proof {
                    let j = key_index(self.entries@, session_id@);
                    assert(self.entries@[j].key@ == session_id@);
                    assert(j == i);
                }
                let h = self.entries[i].holders;
                if h > 0 {
                    self.entries[i].holders = h - 1;
                    proof {
                        assert(final(self).entries@ =~= old(self).entries@.update(
                            i as int,
                            (SessionEntry {
                                key: old(self).entries@[i as int].key,
                                holders: (old(self).entries@[i as int].holders - 1) as u64,
                            }),
                        ));
                    }
                }
            },
        }
    }

    /// Close every session that no holder still shares, removing its key;
    /// entries with holders out stay, as their close would fail.  Returns
    /// the removed keys in store order: the caller owns those sessions
    /// exclusively now and runs each one's shutdown, not stopping at
    /// failures.
    pub fn close_all_sessions(&mut self) -> (r: Vec<String>)
        requires
            old(self).wf(),
        ensures
            final(self).wf(),
            final(self).same_config(old(self)),
            final(self).entries@ == old(self).entries@.filter(
                |e: SessionEntry| e.holders > 0,
            ),
            r.deep_view() == old(self).entries@.filter(
                |e: SessionEntry| e.holders == 0,
            ).map_values(|e: SessionEntry| e.key@),
    {
        let ghost orig = self.entries@;
        let ghost keepp = |e: SessionEntry| e.holders > 0;
        let ghost zerop = |e: SessionEntry| e.holders == 0;
        let ghost keyf = |e: SessionEntry| e.key@;
        let mut kept: Vec<SessionEntry> = Vec::new();
        let mut removed: Vec<String> = Vec::new();
        let ghost mut i: int = 0;
        while self.entries.len() > 0
            invariant
                keys_distinct(orig),
                0 <= i <= orig.len(),
                self.entries@ == orig.skip(i),
                kept@ == orig.take(i).filter(keepp),
                removed.deep_view() == orig.take(i).filter(zerop).map_values(keyf),
                keys_distinct(kept@),
                forall|k: int| 0 <= k < kept@.len() ==> has_key(orig.take(i), kept@[k].key@),
                keepp == (|e: SessionEntry| e.holders > 0),
                zerop == (|e: SessionEntry| e.holders == 0),
                keyf == (|e: SessionEntry| e.key@),
                self.same_config(old(self)),
            decreases self.entries@.len(),
        {
            let e = self.entries.remove(0);
            proof {
                reveal(Seq::filter);
                assert(e == orig[i]);
                assert(self.entries@ =~= orig.skip(i + 1));
                assert(orig.take(i + 1) =~= orig.take(i).push(orig[i]));
                assert(orig.take(i + 1).drop_last() =~= orig.take(i));
            }
            let ghost prev_kept = kept@;
            let ghost prev_removed = removed.deep_view();
            if e.holders == 0 {
                removed.push(e.key);
                proof {
                    reveal(Seq::filter);
                    assert(removed@.last().deep_view() == orig[i].key@);
                    assert(removed.deep_view() =~= prev_removed.push(orig[i].key@));
                    assert(orig.take(i + 1).filter(zerop) =~= orig.take(i).filter(
                        zerop,
                    ).push(orig[i]));
                    assert(removed.deep_view() =~= orig.take(i + 1).filter(
                        zerop,
                    ).map_values(keyf));
                    assert(orig.take(i + 1).filter(keepp) =~= orig.take(i).filter(keepp));
                }
            } else {
                kept.push(e);
                proof {
                    reveal(Seq::filter);
                    assert forall|k: int| 0 <= k < prev_kept.len() implies prev_kept[k].key@
                        != orig[i].key@ by {
                        assert(has_key(orig.take(i), prev_kept[k].key@));
                        let j = choose|j: int|
                            0 <= j < orig.take(i).len() && orig.take(i)[j].key@
                                == prev_kept[k].key@;
                        assert(orig[j].key@ == prev_kept[k].key@);
                    }
                    assert(keys_distinct(kept@));
                    assert(orig.take(i + 1).filter(keepp) =~= orig.take(i).filter(
                        keepp,
                    ).push(orig[i]));
                    assert(orig.take(i + 1).filter(zerop) =~= orig.take(i).filter(zerop));
                    assert(removed.deep_view() =~= orig.take(i + 1).filter(
                        zerop,
                    ).map_values(keyf));
                    assert(forall|k: int|
                        0 <= k < kept@.len() ==> has_key(orig.take(i + 1), kept@[k].key@));
                }
            }
            proof {
                i = i + 1;
            }
        }
        proof {
            assert(orig.take(i) =~= orig);
        }
        self.entries = kept;
        removed
    }
}

/// Two get-or-create calls for the same key, in either order around the
/// store lock, produce at most one creation: whichever call runs second
/// finds the key present and shares, so exactly one session — and one
/// spawned process — ever exists per key.
pub proof fn lemma_at_most_one_creation(
    e0: Seq<SessionEntry>,
    e1: Seq<SessionEntry>,
    e2: Seq<SessionEntry>,
    key: Seq<char>,
)
    requires
        creates_entry(e0, e1, key) || shares_entry(e0, e1, key),
        creates_entry(e1, e2, key) || shares_entry(e1, e2, key),
    ensures
        creates_entry(e0, e1, key) ==> shares_entry(e1, e2, key),
        !(creates_entry(e0, e1, key) && creates_entry(e1, e2, key)),
{
    if creates_entry(e0, e1, key) {
        assert(e1[e1.len() - 1].key@ == key);
        assert(has_key(e1, key));
    }
}

/// One step of the registry's history, as the store observes it.
pub ghost enum RegistryStep {
    /// A get-or-create claimed this key.
    Created(Seq<char>),
    /// A close removed this key.
    Closed(Seq<char>),
    /// Any other outcome — a share, a release, a failed create or close —
    /// which never changes which keys are present.
    Untouched,
}

/// The step relates its pre- and post-store as the contracts say.
pub open spec fn step_ok(
    pre: Seq<SessionEntry>,
    post: Seq<SessionEntry>,
    step: RegistryStep,
) -> bool {
    match step {
        RegistryStep::Created(k) => creates_entry(pre, post, k),
        RegistryStep::Closed(k) => removes_entry(pre, post, k),
        RegistryStep::Untouched => post.len() == pre.len(),
    }
}

/// How many steps of the history created a key.
pub open spec fn creates_in(tr: Seq<RegistryStep>) -> int
    decreases tr.len(),
{
    if tr.len() == 0 {
        0
    } else {
        creates_in(tr.drop_last()) + if tr.last() matches RegistryStep::Created(_) {
            1int
        } else {
            0int
        }
    }
}

/// How many steps of the history removed a key.
pub open spec fn closes_in(tr: Seq<RegistryStep>) -> int
    decreases tr.len(),
{
    if tr.len() == 0 {
        0
    } else {
        closes_in(tr.drop_last()) + if tr.last() matches RegistryStep::Closed(_) {
            1int
        } else {
            0int
        }
    }
}

/// `states` is the run of stores that the history `tr` steps through.
pub open spec fn trace_ok(states: Seq<Seq<SessionEntry>>, tr: Seq<RegistryStep>) -> bool {
    &&& states.len() == tr.len() + 1
    &&& forall|i: int| 0 <= i < tr.len() ==> step_ok(states[i], states[i + 1], tr[i])
}

/// The active count exactly matches the live insert/remove history: after
/// any interleaving of creates, shares, closes and releases, the number of
/// keys present is the initial number plus the successful creations minus
/// the successful removals.
pub proof fn lemma_active_count_matches_history(
    states: Seq<Seq<SessionEntry>>,
    tr: Seq<RegistryStep>,
)
    requires
        trace_ok(states, tr),
    ensures
        states.last().len() == states[0].len() + creates_in(tr) - closes_in(tr),
    decreases tr.len(),
{
    if tr.len() > 0 {
        let states0 = states.drop_last();
        let tr0 = tr.drop_last();
        assert(forall|i: int| 0 <= i < tr0.len() ==> step_ok(states0[i], states0[i + 1], tr0[i]));
        lemma_active_count_matches_history(states0, tr0);
        assert(step_ok(states[tr.len() - 1], states[tr.len() as int], tr.last()));
        assert(states0.last() == states[tr.len() - 1]);
    }
}

} // verus!
