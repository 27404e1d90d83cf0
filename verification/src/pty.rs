//! Pseudo-terminal session manager.
//!
//! A manager owns a table of live terminal sessions, each registered
//! under a freshly minted id `pty-N` with `N` drawn from a monotonic
//! counter.  Sessions are created, written, read, resized and killed
//! by id; the table is the sole owner of every handle, and no session
//! outlives the manager.

use vstd::prelude::*;
use crate::pty_os::{PtyCommand, PtyHandle, pty_open, pty_read_text, pty_resize, pty_write_text};
use crate::strutil::{has_prefix, str_concat, str_eq};

verus! {

/// The character a decimal digit prints as.
pub open spec fn dec_digit(d: nat) -> char {
    if d == 0 {
        '0'
    } else if d == 1 {
        '1'
    } else if d == 2 {
        '2'
    } else if d == 3 {
        '3'
    } else if d == 4 {
        '4'
    } else if d == 5 {
        '5'
    } else if d == 6 {
        '6'
    } else if d == 7 {
        '7'
    } else if d == 8 {
        '8'
    } else {
        '9'
    }
}

/// The decimal representation of `n`, most significant digit first,
/// without leading zeroes (except for `n == 0` itself).
pub open spec fn dec_seq(n: nat) -> Seq<char>
    decreases n,
{
    if n < 10 {
        seq![dec_digit(n)]
    } else {
        dec_seq(n / 10) + seq![dec_digit(n % 10)]
    }
}

/// The session id minted for counter value `n`.
pub open spec fn pty_id_seq(n: nat) -> Seq<char> {
    seq!['p', 't', 'y', '-'] + dec_seq(n)
}

proof fn lemma_dec_seq_len(n: nat)
    ensures
        dec_seq(n).len() >= 1,
        n >= 10 ==> dec_seq(n).len() >= 2,
    decreases n,
{
    if n >= 10 {
        lemma_dec_seq_len(n / 10);
    }
}

proof fn lemma_dec_seq_injective(m: nat, n: nat)
    requires
        dec_seq(m) == dec_seq(n),
    ensures
        m == n,
    decreases m,
{
    lemma_dec_seq_len(m);
    lemma_dec_seq_len(n);
    if m < 10 && n < 10 {
        assert(dec_seq(m) == seq![dec_digit(m)]);
        assert(dec_seq(n) == seq![dec_digit(n)]);
        assert(dec_seq(m)[0] == dec_digit(m));
        assert(dec_seq(n)[0] == dec_digit(n));
        assert(dec_digit(m) == dec_digit(n));
        assert(m == n);
    } else if m < 10 {
        lemma_dec_seq_len(n / 10);
        assert(dec_seq(n).len() >= 2);
        assert(false);
    } else if n < 10 {
        lemma_dec_seq_len(m / 10);
        assert(false);
    } else {
        assert(dec_seq(m) == dec_seq(m / 10) + seq![dec_digit(m % 10)]);
        assert(dec_seq(n) == dec_seq(n / 10) + seq![dec_digit(n % 10)]);
        assert(dec_seq(m).len() == dec_seq(m / 10).len() + 1);
        assert(dec_seq(n).len() == dec_seq(n / 10).len() + 1);
        assert(dec_seq(m / 10) =~= dec_seq(n / 10)) by {
            assert forall|i: int| 0 <= i < dec_seq(m / 10).len() implies #[trigger] dec_seq(
                m / 10,
            )[i] == dec_seq(n / 10)[i] by {
                assert(dec_seq(m / 10)[i] == (dec_seq(m / 10) + seq![dec_digit(m % 10)])[i]);
                assert(dec_seq(n / 10)[i] == (dec_seq(n / 10) + seq![dec_digit(n % 10)])[i]);
                assert(dec_seq(m)[i] == dec_seq(n)[i]);
            }
        };
        lemma_dec_seq_injective(m / 10, n / 10);
        let lm = dec_seq(m / 10).len() as int;
        assert(dec_seq(m)[lm] == dec_digit(m % 10));
        assert(dec_seq(n)[lm] == dec_digit(n % 10));
        assert(dec_digit(m % 10) == dec_digit(n % 10));
        assert(m % 10 == n % 10);
        assert(m == 10 * (m / 10) + m % 10) by {
            vstd::arithmetic::div_mod::lemma_fundamental_div_mod(m as int, 10);
        };
        assert(n == 10 * (n / 10) + n % 10) by {
            vstd::arithmetic::div_mod::lemma_fundamental_div_mod(n as int, 10);
        };
        assert(m == n);
    }
}

/// Session ids minted from distinct counter values are distinct, so
/// every sequence of `create` calls returns pairwise distinct ids.
pub proof fn lemma_pty_id_injective(m: nat, n: nat)
    ensures
        pty_id_seq(m) == pty_id_seq(n) ==> m == n,
{
    if pty_id_seq(m) == pty_id_seq(n) {
        assert(pty_id_seq(m) == seq!['p', 't', 'y', '-'] + dec_seq(m));
        assert(pty_id_seq(n) == seq!['p', 't', 'y', '-'] + dec_seq(n));
        assert(dec_seq(m) =~= dec_seq(n)) by {
            assert(pty_id_seq(m).len() == pty_id_seq(n).len());
            assert forall|i: int| 0 <= i < dec_seq(m).len() implies #[trigger] dec_seq(m)[i]
                == dec_seq(n)[i] by {
                assert(dec_seq(m)[i] == (seq!['p', 't', 'y', '-'] + dec_seq(m))[i + 4]);
                assert(dec_seq(n)[i] == (seq!['p', 't', 'y', '-'] + dec_seq(n))[i + 4]);
                assert(pty_id_seq(m)[i + 4] == pty_id_seq(n)[i + 4]);
            }
        };
        lemma_dec_seq_injective(m, n);
    }
}

/// Relies on `format!` (std): "pty-" followed by the decimal digits of
/// `n`, most significant first, no leading zeroes.
#[verifier::external_body]
fn format_pty_id(n: u64) -> (r: String)
    ensures
        r@ == pty_id_seq(n as nat),
{
    format!("pty-{}", n)
}

/// The error reported for an id with no open session.
pub open spec fn not_found_msg(id: Seq<char>) -> Seq<char> {
    "PTY session not found: "@ + id
}

/// A single terminal session: the OS handle plus the command line and
/// working directory it was started with.
pub struct PtySession {
    pub handle: PtyHandle,
    pub cwd: String,
    pub command: String,
}

/// Information about one open session, as reported by `list`.
#[derive(Clone)]
pub struct PtySessionInfo {
    pub session_id: String,
    pub command: String,
    pub cwd: String,
}

/// What the manager remembers of one session, abstractly.
pub ghost struct PtySessionView {
    pub id: Seq<char>,
    pub command: Seq<char>,
    pub cwd: Seq<char>,
}

struct PtyEntry {
    num: u64,
    id: String,
    session: PtySession,
}

/// Owns all live terminal sessions.
pub struct PtyManager {
    entries: Vec<PtyEntry>,
    next_id: u64,
}

/// The command a new session runs: the caller's, or the default shell.
pub open spec fn chosen_command(command: Option<String>) -> Seq<char> {
    match command {
        Option::Some(c) => c@,
        Option::None => "/bin/bash"@,
    }
}

/// The working directory recorded for a new session: the caller's, or
/// empty when the spawned process inherits its parent's directory.
pub open spec fn chosen_cwd(cwd: Option<String>) -> Seq<char> {
    match cwd {
        Option::Some(c) => c@,
        Option::None => Seq::empty(),
    }
}

fn entry_mut(v: &mut Vec<PtyEntry>, i: usize) -> (e: &mut PtyEntry)
    requires
        i < old(v).len(),
    ensures
        *e == old(v)@[i as int],
        final(v)@ == old(v)@.update(i as int, *final(e)),
{
    &mut v[i]
}

impl PtyManager {
    /// The open sessions, in order of creation.
    pub closed spec fn sessions(self) -> Seq<PtySessionView> {
        self.entries@.map(
            |i: int, e: PtyEntry|
                PtySessionView { id: e.id@, command: e.session.command@, cwd: e.session.cwd@ },
        )
    }

    /// The counter the next session id is minted from.
    pub closed spec fn next_counter(self) -> nat {
        self.next_id as nat
    }

    /// Well-formedness: ids are minted from pairwise distinct counter
    /// values below the current counter.
    pub closed spec fn wf(self) -> bool {
        &&& 1 <= self.next_id
        &&& forall|i: int|
            0 <= i < self.entries@.len() ==> {
                &&& 1 <= #[trigger] self.entries@[i].num < self.next_id
                &&& self.entries@[i].id@ == pty_id_seq(self.entries@[i].num as nat)
            }
        &&& forall|i: int, j: int|
            0 <= i < j < self.entries@.len() ==> #[trigger] self.entries@[i].num
                != #[trigger] self.entries@[j].num
    }

    /// Whether a session is currently open under `id`.
    pub open spec fn open_id(self, id: Seq<char>) -> bool {
        exists|i: int| 0 <= i < self.sessions().len() && self.sessions()[i].id == id
    }

    /// The id the next `create` would mint is open under no
    /// circumstances, so the ids returned by any sequence of `create`
    /// calls are pairwise distinct.
    pub proof fn lemma_next_id_fresh(self)
        requires
            self.wf(),
        ensures
            !self.open_id(pty_id_seq(self.next_counter())),
    {
        if self.open_id(pty_id_seq(self.next_counter())) {
            let i = choose|i: int|
                0 <= i < self.sessions().len() && self.sessions()[i].id == pty_id_seq(
                    self.next_counter(),
                );
            lemma_pty_id_injective(self.entries@[i].num as nat, self.next_counter());
            assert(false);
        }
    }

    /// Distinct table slots always hold distinct session ids.
    pub proof fn lemma_ids_distinct(self)
        requires
            self.wf(),
        ensures
            forall|i: int, j: int|
                0 <= i < j < self.sessions().len() ==> #[trigger] self.sessions()[i].id
                    != #[trigger] self.sessions()[j].id,
    {
        assert forall|i: int, j: int| 0 <= i < j < self.sessions().len() implies #[trigger] self.sessions()[i].id
            != #[trigger] self.sessions()[j].id by {
            lemma_pty_id_injective(self.entries@[i].num as nat, self.entries@[j].num as nat);
        }
    }

    /// An empty manager.
    pub fn new() -> (r: Self)
        ensures
            r.wf(),
            r.sessions() == Seq::<PtySessionView>::empty(),
    {
        let r = PtyManager { entries: Vec::new(), next_id: 1 };
        proof {
            assert(r.sessions() =~= Seq::<PtySessionView>::empty());
        }
        r
    }

    fn find_index(&self, session_id: &str) -> (r: Option<usize>)
        requires
            self.wf(),
        ensures
            r matches Some(i) ==> i < self.sessions().len() && self.sessions()[i as int].id
                == session_id@,
            r is None ==> !self.open_id(session_id@),
    {
        let mut i: usize = 0;
        while i < self.entries.len()
            invariant
                i <= self.entries.len(),
                forall|j: int| 0 <= j < i ==> self.sessions()[j].id != session_id@,
            decreases self.entries.len() - i,
        {
            if str_eq(self.entries[i].id.as_str(), session_id) {
                return Some(i);
            }
            i += 1;
        }
        None
    }

    /// Opens a new terminal session sized to (rows, cols), spawns the
    /// command (default `/bin/bash`) attached to its slave side with
    /// `TERM` set and the caller's environment merged on top, and
    /// registers it under a fresh id.  On failure no session is
    /// registered.
    pub fn create(
        &mut self,
        command: Option<String>,
        args: Option<Vec<String>>,
        cwd: Option<String>,
        env: Option<Vec<(String, String)>>,
        rows: u16,
        cols: u16,
    ) -> (r: Result<String, String>)
        requires
            old(self).wf(),
        ensures
            final(self).wf(),
            r matches Ok(id) ==> {
                &&& id@ == pty_id_seq(old(self).next_counter())
                &&& !old(self).open_id(id@)
                &&& final(self).next_counter() == old(self).next_counter() + 1
                &&& final(self).sessions() == old(self).sessions().push(
                    PtySessionView {
                        id: id@,
                        command: chosen_command(command),
                        cwd: chosen_cwd(cwd),
                    },
                )
            },
            r is Err ==> final(self).sessions() == old(self).sessions()
                && final(self).next_counter() == old(self).next_counter(),
    {
        let ghost pre = *self;
        let cmd_str: String = match command {
            Option::Some(c) => c,
            Option::None => "/bin/bash".to_owned(),
        };
        let mut cmd = PtyCommand::new(&cmd_str);
        match &args {
            Option::Some(a) => {
                let mut i: usize = 0;
                while i < a.len()
                    decreases a.len() - i,
                {
                    cmd.arg(&a[i]);
                    i += 1;
                }
            },
            Option::None => {},
        }
        let cwd_str: String = match cwd {
            Option::Some(c) => {
                cmd.cwd(&c);
                c
            },
            Option::None => String::new(),
        };
        let term_key: String = "TERM".to_owned();
        let term_val: String = "xterm-256color".to_owned();
        cmd.env(&term_key, &term_val);
        match &env {
            Option::Some(pairs) => {
                let mut i: usize = 0;
                while i < pairs.len()
                    decreases pairs.len() - i,
                {
                    cmd.env(&pairs[i].0, &pairs[i].1);
                    i += 1;
                }
            },
            Option::None => {},
        }
        if self.next_id == u64::MAX {
            return Err("PTY session ids exhausted".to_owned());
        }
        match pty_open(rows, cols, cmd) {
            Result::Err(e) => Err(e),
            Result::Ok(handle) => {
                let id = format_pty_id(self.next_id);
                proof {
                    pre.lemma_next_id_fresh();
                }
                let num = self.next_id;
                self.next_id = self.next_id + 1;
                let session = PtySession { handle, cwd: cwd_str, command: cmd_str };
                self.entries.push(PtyEntry { num, id: id.clone(), session });
                proof {
                    assert(self.sessions() =~= pre.sessions().push(
                        PtySessionView {
                            id: id@,
                            command: chosen_command(command),
                            cwd: chosen_cwd(cwd),
                        },
                    ));
                }
                Ok(id)
            },
        }
    }

    /// Writes raw text to the session's input side and flushes.  An
    /// unknown session id is an error; the session table is unchanged
    /// either way.
    pub fn write(&mut self, session_id: &str, data: &str) -> (r: Result<(), String>)
        requires
            old(self).wf(),
        ensures
            final(self).wf(),
            final(self).sessions() == old(self).sessions(),
            final(self).next_counter() == old(self).next_counter(),
            !old(self).open_id(session_id@) ==> (r matches Err(m) && m@ == not_found_msg(
                session_id@,
            )),
            old(self).open_id(session_id@) ==> (r matches Err(m) ==> has_prefix(
                m@,
                "Failed to "@,
            )),
    {
        let ghost pre = *self;
        match self.find_index(session_id) {
            Option::None => Err(str_concat("PTY session not found: ", session_id)),
            Option::Some(i) => {
                let e = entry_mut(&mut self.entries, i);
                let res = pty_write_text(&mut e.session.handle, data);
                proof {
                    assert(self.sessions() =~= pre.sessions());
                }
                res
            },
        }
    }

    /// Hands back whatever output is currently buffered for the
    /// session; `Ok(None)` means no data is pending, which is not a
    /// fault.  An unknown session id is an error.
    pub fn read(&mut self, session_id: &str) -> (r: Result<Option<String>, String>)
        requires
            old(self).wf(),
        ensures
            final(self).wf(),
            final(self).sessions() == old(self).sessions(),
            final(self).next_counter() == old(self).next_counter(),
            !old(self).open_id(session_id@) ==> (r matches Err(m) && m@ == not_found_msg(
                session_id@,
            )),
            old(self).open_id(session_id@) ==> (r matches Err(m) ==> has_prefix(
                m@,
                "Failed to "@,
            )),
            r matches Ok(Some(text)) ==> text@.len() > 0,
    {
        let ghost pre = *self;
        match self.find_index(session_id) {
            Option::None => Err(str_concat("PTY session not found: ", session_id)),
            Option::Some(i) => {
                let e = entry_mut(&mut self.entries, i);
                let res = pty_read_text(&mut e.session.handle);
                proof {
                    assert(self.sessions() =~= pre.sessions());
                }
                res
            },
        }
    }

    /// Propagates new terminal dimensions to the session.  An unknown
    /// session id is an error.
    pub fn resize(&mut self, session_id: &str, rows: u16, cols: u16) -> (r: Result<(), String>)
        requires
            old(self).wf(),
        ensures
            final(self).wf(),
            final(self).sessions() == old(self).sessions(),
            final(self).next_counter() == old(self).next_counter(),
            !old(self).open_id(session_id@) ==> (r matches Err(m) && m@ == not_found_msg(
                session_id@,
            )),
            old(self).open_id(session_id@) ==> (r matches Err(m) ==> has_prefix(
                m@,
                "Failed to "@,
            )),
    {
        let ghost pre = *self;
        match self.find_index(session_id) {
            Option::None => Err(str_concat("PTY session not found: ", session_id)),
            Option::Some(i) => {
                let e = entry_mut(&mut self.entries, i);
                let res = pty_resize(&mut e.session.handle, rows, cols);
                proof {
                    assert(self.sessions() =~= pre.sessions());
                }
                res
            },
        }
    }

    /// Deregisters the session and releases its terminal resources.
    /// Killing succeeds exactly for an open id, and afterwards that id
    /// is no longer open.
    pub fn kill(&mut self, session_id: &str) -> (r: Result<(), String>)
        requires
            old(self).wf(),
        ensures
            final(self).wf(),
            final(self).next_counter() == old(self).next_counter(),
            r is Ok <==> old(self).open_id(session_id@),
            r matches Err(m) ==> m@ == not_found_msg(session_id@) && final(self).sessions() == old(
                self,
            ).sessions(),
            r is Ok ==> {
                &&& !final(self).open_id(session_id@)
                &&& exists|i: int|
                    0 <= i < old(self).sessions().len() && old(self).sessions()[i].id == session_id@
                        && final(self).sessions() == old(self).sessions().remove(i)
            },
    {
        let ghost pre = *self;
        match self.find_index(session_id) {
            Option::None => Err(str_concat("PTY session not found: ", session_id)),
            Option::Some(i) => {
                self.entries.remove(i);
                proof {
                    assert(self.sessions() =~= pre.sessions().remove(i as int));
                    pre.lemma_ids_distinct();
                    if self.open_id(session_id@) {
                        let j = choose|j: int|
                            0 <= j < self.sessions().len() && self.sessions()[j].id
                                == session_id@;
                        if j < i {
                            assert(pre.sessions()[j].id == session_id@);
                        } else {
                            assert(pre.sessions()[j + 1].id == session_id@);
                        }
                        assert(false);
                    }
                }
                Ok(())
            },
        }
    }

    /// A snapshot of all open sessions, in order of creation.
    pub fn list(&self) -> (r: Vec<PtySessionInfo>)
        requires
            self.wf(),
        ensures
            r@.len() == self.sessions().len(),
            forall|i: int|
                0 <= i < r@.len() ==> {
                    &&& (#[trigger] r@[i]).session_id@ == self.sessions()[i].id
                    &&& r@[i].command@ == self.sessions()[i].command
                    &&& r@[i].cwd@ == self.sessions()[i].cwd
                },
    {
        let mut r: Vec<PtySessionInfo> = Vec::new();
        let mut i: usize = 0;
        while i < self.entries.len()
            invariant
                i <= self.entries.len(),
                r@.len() == i,
                forall|j: int|
                    0 <= j < i ==> {
                        &&& (#[trigger] r@[j]).session_id@ == self.sessions()[j].id
                        &&& r@[j].command@ == self.sessions()[j].command
                        &&& r@[j].cwd@ == self.sessions()[j].cwd
                    },
            decreases self.entries.len() - i,
        {
            let e = &self.entries[i];
            r.push(
                PtySessionInfo {
                    session_id: e.id.clone(),
                    command: e.session.command.clone(),
                    cwd: e.session.cwd.clone(),
                },
            );
            i += 1;
        }
        r
    }
}

} // verus!
