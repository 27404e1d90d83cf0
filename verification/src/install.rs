//! Binary installation manager: resolves a registry entry to a
//! runnable executable.  The flow — probe for an existing install,
//! create directories, download, extract by extension sniffing,
//! locate the entry point, fix permissions, clean up staging — is a
//! state machine here; the runner performs each commanded effect and
//! reports its outcome back.  Holding the per-agent lock around the
//! whole flow is the runner's side of the single-flight contract.

use vstd::prelude::*;

verus! {

/// ASCII lowercasing of one character.
pub open spec fn lower_c(c: char) -> char {
    if c == 'A' {
        'a'
    } else if c == 'B' {
        'b'
    } else if c == 'C' {
        'c'
    } else if c == 'D' {
        'd'
    } else if c == 'E' {
        'e'
    } else if c == 'F' {
        'f'
    } else if c == 'G' {
        'g'
    } else if c == 'H' {
        'h'
    } else if c == 'I' {
        'i'
    } else if c == 'J' {
        'j'
    } else if c == 'K' {
        'k'
    } else if c == 'L' {
        'l'
    } else if c == 'M' {
        'm'
    } else if c == 'N' {
        'n'
    } else if c == 'O' {
        'o'
    } else if c == 'P' {
        'p'
    } else if c == 'Q' {
        'q'
    } else if c == 'R' {
        'r'
    } else if c == 'S' {
        's'
    } else if c == 'T' {
        't'
    } else if c == 'U' {
        'u'
    } else if c == 'V' {
        'v'
    } else if c == 'W' {
        'w'
    } else if c == 'X' {
        'x'
    } else if c == 'Y' {
        'y'
    } else if c == 'Z' {
        'z'
    } else {
        c
    }
}

fn lower_char(c: char) -> (r: char)
    ensures
        r == lower_c(c),
{
    if c == 'A' {
        'a'
    } else if c == 'B' {
        'b'
    } else if c == 'C' {
        'c'
    } else if c == 'D' {
        'd'
    } else if c == 'E' {
        'e'
    } else if c == 'F' {
        'f'
    } else if c == 'G' {
        'g'
    } else if c == 'H' {
        'h'
    } else if c == 'I' {
        'i'
    } else if c == 'J' {
        'j'
    } else if c == 'K' {
        'k'
    } else if c == 'L' {
        'l'
    } else if c == 'M' {
        'm'
    } else if c == 'N' {
        'n'
    } else if c == 'O' {
        'o'
    } else if c == 'P' {
        'p'
    } else if c == 'Q' {
        'q'
    } else if c == 'R' {
        'r'
    } else if c == 'S' {
        's'
    } else if c == 'T' {
        't'
    } else if c == 'U' {
        'u'
    } else if c == 'V' {
        'v'
    } else if c == 'W' {
        'w'
    } else if c == 'X' {
        'x'
    } else if c == 'Y' {
        'y'
    } else if c == 'Z' {
        'z'
    } else {
        c
    }
}

/// Whether `s` ends with `suf`, compared ASCII-case-insensitively on
/// the side of `s` (`suf` is expected lowercase).
pub open spec fn suffix_ci(s: Seq<char>, suf: Seq<char>) -> bool {
    suf.len() <= s.len() && (forall|i: int|
        0 <= i < suf.len() ==> lower_c(s[s.len() - suf.len() + i]) == #[trigger] suf[i])
}

/// Decides a case-insensitive suffix match.
pub fn has_suffix_ci(s: &str, suf: &str) -> (r: bool)
    ensures
        r == suffix_ci(s@, suf@),
{
    let n = s.unicode_len();
    let m = suf.unicode_len();
    if m > n {
        return false;
    }
    let mut i: usize = 0;
    while i < m
        invariant
            i <= m,
            m <= n,
            n == s@.len(),
            m == suf@.len(),
            forall|j: int| 0 <= j < i ==> lower_c(s@[n - m + j]) == #[trigger] suf@[j],
        decreases m - i,
    {
        let cs = s.get_char(n - m + i);
        let cf = suf.get_char(i);
        if lower_char(cs) != cf {
            return false;
        }
        i += 1;
    }
    true
}

/// The archive format implied by a file name, by extension sniffing;
/// anything unrecognised is treated as a raw executable.
#[derive(Clone, Copy, PartialEq, Eq, Structural, Debug)]
pub enum ArchiveKind {
    Zip,
    TarGz,
    TarBz2,
    Tar,
    Raw,
}

/// The archive kind a name sniffs to: zip, tar+gzip, tar+bzip2, bare
/// tar, else a raw executable, tested in that order.
pub open spec fn archive_kind_of(s: Seq<char>) -> ArchiveKind {
    if suffix_ci(s, ".zip"@) {
        ArchiveKind::Zip
    } else if suffix_ci(s, ".tar.gz"@) || suffix_ci(s, ".tgz"@) {
        ArchiveKind::TarGz
    } else if suffix_ci(s, ".tar.bz2"@) || suffix_ci(s, ".tbz2"@) {
        ArchiveKind::TarBz2
    } else if suffix_ci(s, ".tar"@) {
        ArchiveKind::Tar
    } else {
        ArchiveKind::Raw
    }
}

/// Sniffs the archive format from a file name.
pub fn classify_archive(name: &str) -> (r: ArchiveKind)
    ensures
        r == archive_kind_of(name@),
{
    if has_suffix_ci(name, ".zip") {
        ArchiveKind::Zip
    } else if has_suffix_ci(name, ".tar.gz") {
        ArchiveKind::TarGz
    } else if has_suffix_ci(name, ".tgz") {
        ArchiveKind::TarGz
    } else if has_suffix_ci(name, ".tar.bz2") {
        ArchiveKind::TarBz2
    } else if has_suffix_ci(name, ".tbz2") {
        ArchiveKind::TarBz2
    } else if has_suffix_ci(name, ".tar") {
        ArchiveKind::Tar
    } else {
        ArchiveKind::Raw
    }
}

/// What follows the last `/` of `s` (all of `s` when it has none).
pub open spec fn after_last_slash(s: Seq<char>) -> Seq<char>
    decreases s.len(),
{
    if s.len() == 0 {
        s
    } else if s.last() == '/' {
        Seq::empty()
    } else {
        after_last_slash(s.drop_last()).push(s.last())
    }
}

/// What precedes the first `?` of `s` (all of `s` when it has none).
pub open spec fn before_query(s: Seq<char>) -> Seq<char>
    decreases s.len(),
{
    if s.len() == 0 {
        s
    } else if s[0] == '?' {
        Seq::empty()
    } else {
        seq![s[0]] + before_query(s.skip(1))
    }
}

proof fn lemma_before_query_cut(t: Seq<char>, k: int)
    requires
        0 <= k <= t.len(),
        forall|j: int| 0 <= j < k ==> t[j] != '?',
        k == t.len() || t[k] == '?',
    ensures
        before_query(t) == t.subrange(0, k),
    decreases k,
{
    if k == 0 {
        if t.len() == 0 {
            assert(before_query(t) =~= t.subrange(0, 0));
        } else {
            assert(t[0] == '?');
            assert(before_query(t) =~= t.subrange(0, 0));
        }
    } else {
        assert(t[0] != '?');
        lemma_before_query_cut(t.skip(1), k - 1);
        assert(before_query(t) == seq![t[0]] + before_query(t.skip(1)));
        assert(before_query(t) =~= t.subrange(0, k)) by {
            assert(before_query(t.skip(1)) == t.skip(1).subrange(0, k - 1));
        }
    }
}

/// The file name the archive is stored under: the last path segment
/// of the URL, with any query string cut off.
pub fn archive_filename(url: &str) -> (r: String)
    ensures
        r@ == before_query(after_last_slash(url@)),
{
    let n = url.unicode_len();
    let mut start: usize = 0;
    let mut i: usize = 0;
    while i < n
        invariant
            start <= i <= n,
            n == url@.len(),
            after_last_slash(url@.subrange(0, i as int)) == url@.subrange(start as int, i as int),
        decreases n - i,
    {
        let ghost prefix = url@.subrange(0, i as int);
        let c = url.get_char(i);
        proof {
            let extended = url@.subrange(0, i + 1);
            assert(extended.drop_last() =~= prefix);
            assert(extended.last() == url@[i as int]);
            if url@[i as int] != '/' {
                assert(after_last_slash(extended) == after_last_slash(prefix).push(
                    url@[i as int],
                ));
                assert(after_last_slash(prefix).push(url@[i as int]) =~= url@.subrange(
                    start as int,
                    i + 1,
                ));
            }
        }
        if c == '/' {
            start = i + 1;
            proof {
                assert(after_last_slash(url@.subrange(0, i + 1)) =~= url@.subrange(i + 1, i + 1));
            }
        }
        i += 1;
    }
    proof {
        assert(url@.subrange(0, n as int) =~= url@);
    }
    let mut end: usize = start;
    while end < n && url.get_char(end) != '?'
        invariant
            start <= end <= n,
            n == url@.len(),
            forall|j: int| start <= j < end ==> url@[j] != '?',
        decreases n - end,
    {
        end += 1;
    }
    let piece = url.substring_char(start, end);
    proof {
        let t = url@.subrange(start as int, n as int);
        lemma_before_query_cut(t, end - start);
        assert(t.subrange(0, end - start) =~= url@.subrange(start as int, end as int));
    }
    piece.to_owned()
}

/// The entry-point name with any leading `./` stripped.
pub open spec fn stripped_entry(s: Seq<char>) -> Seq<char> {
    if s.len() >= 2 && s[0] == '.' && s[1] == '/' {
        s.skip(2)
    } else {
        s
    }
}

/// Strips a leading `./` from a declared entry-point name.
pub fn strip_dot_slash(cmd: &str) -> (r: String)
    ensures
        r@ == stripped_entry(cmd@),
{
    let n = cmd.unicode_len();
    if n >= 2 && cmd.get_char(0) == '.' && cmd.get_char(1) == '/' {
        let rest = cmd.substring_char(2, n);
        proof {
            assert(cmd@.subrange(2, n as int) =~= cmd@.skip(2));
        }
        rest.to_owned()
    } else {
        cmd.to_owned()
    }
}

/// Where an install flow stands.
pub enum InstallState {
    /// Looking for an executable of an earlier install.
    Probing,
    /// Creating the staging and install directories.
    MakingDirs,
    /// Fetching the archive.
    Downloading,
    /// Unpacking the archive into the install directory.
    Extracting,
    /// Searching the install directory for the entry point.
    Locating,
    /// Fixing permissions on the located executable.
    Preparing { exe: String },
    /// Removing the staging directory, best-effort.
    CleaningUp { exe: String },
    /// The flow ended with this outcome.
    Finished,
}

/// What an install flow's runner reports back after performing one
/// commanded effect.
pub enum InstallEvent {
    /// The probe's finding: an executable already in place, or none.
    ExistingExe(Option<String>),
    DirsMade(Result<(), String>),
    /// The download's outcome: the stored archive's path.
    Downloaded(Result<String, String>),
    Extracted(Result<(), String>),
    /// The search's finding: the entry point, or none.
    Located(Option<String>),
    Prepared(Result<(), String>),
    /// Staging removal is best-effort; failure is not reported.
    CleanedUp,
}

/// What the runner must do next.
pub enum InstallCommand {
    ProbeExisting { install_dir: String, cmd: Option<String> },
    MakeDirs { download_dir: String, install_dir: String },
    Download { url: String, download_dir: String },
    Extract { archive_path: String, install_dir: String },
    Locate { install_dir: String, cmd: Option<String> },
    Prepare { exe: String },
    RemoveDir { dir: String },
    Finish { outcome: Result<String, String> },
}

/// One binary install in progress: the fixed paths and descriptor
/// pieces, and the current state.
pub struct InstallFlow {
    install_dir: String,
    download_dir: String,
    archive_url: String,
    cmd_name: Option<String>,
    state: InstallState,
}

impl InstallFlow {
    /// The flow's current state.
    pub closed spec fn spec_state(self) -> InstallState {
        self.state
    }

    /// The event the flow expects next; `Finished` expects none.
    pub open spec fn expects(self, ev: InstallEvent) -> bool {
        match self.spec_state() {
            InstallState::Probing => ev is ExistingExe,
            InstallState::MakingDirs => ev is DirsMade,
            InstallState::Downloading => ev is Downloaded,
            InstallState::Extracting => ev is Extracted,
            InstallState::Locating => ev is Located,
            InstallState::Preparing { .. } => ev is Prepared,
            InstallState::CleaningUp { .. } => ev is CleanedUp,
            InstallState::Finished => false,
        }
    }

    /// Starts an install flow over the resolved directories, archive
    /// URL and declared entry-point name; the first command probes
    /// for an executable left by an earlier install.
    pub fn start(
        install_dir: String,
        download_dir: String,
        archive_url: String,
        cmd_name: Option<String>,
    ) -> (r: (InstallFlow, InstallCommand))
        ensures
            r.0.spec_state() is Probing,
            r.1 matches InstallCommand::ProbeExisting { install_dir: d, cmd } && d@ == install_dir@
                && cmd == cmd_name,
    {
        let probe_dir = install_dir.clone();
        let probe_cmd = clone_opt(&cmd_name);
        let flow = InstallFlow {
            install_dir,
            download_dir,
            archive_url,
            cmd_name,
            state: InstallState::Probing,
        };
        (flow, InstallCommand::ProbeExisting { install_dir: probe_dir, cmd: probe_cmd })
    }

    /// Advances the flow on one reported outcome.  An executable
    /// found by the probe short-circuits the whole flow — no download
    /// and no extraction are ever commanded, and both callers of a
    /// serialized pair of flows receive the same path.  Any failure
    /// while making directories, downloading, extracting or preparing
    /// aborts the flow with that error; a missing entry point aborts
    /// it with the fixed diagnostic.  Cleanup failure is not fatal.
    pub fn step(&mut self, ev: InstallEvent) -> (r: InstallCommand)
        requires
            old(self).expects(ev),
        ensures
            match old(self).spec_state() {
                InstallState::Probing => (ev matches InstallEvent::ExistingExe(found)
                    && match found {
                    Some(exe) => final(self).spec_state() is Finished && (r matches
                        InstallCommand::Finish { outcome } && (outcome matches Ok(p) && p@
                        == exe@)),
                    None => final(self).spec_state() is MakingDirs && r matches
                        InstallCommand::MakeDirs { download_dir, install_dir },
                }),
                InstallState::MakingDirs => (ev matches InstallEvent::DirsMade(res)
                    && match res {
                    Ok(_) => final(self).spec_state() is Downloading && r matches
                        InstallCommand::Download { url, download_dir },
                    Err(e) => final(self).spec_state() is Finished && (r matches
                        InstallCommand::Finish { outcome } && (outcome matches Err(m) && m@
                        == e@)),
                }),
                InstallState::Downloading => (ev matches InstallEvent::Downloaded(res)
                    && match res {
                    Ok(path) => final(self).spec_state() is Extracting && (r matches
                        InstallCommand::Extract { archive_path, install_dir } && archive_path@
                        == path@),
                    Err(e) => final(self).spec_state() is Finished && (r matches
                        InstallCommand::Finish { outcome } && (outcome matches Err(m) && m@
                        == e@)),
                }),
                InstallState::Extracting => (ev matches InstallEvent::Extracted(res)
                    && match res {
                    Ok(_) => final(self).spec_state() is Locating && r matches
                        InstallCommand::Locate { install_dir, cmd },
                    Err(e) => final(self).spec_state() is Finished && (r matches
                        InstallCommand::Finish { outcome } && (outcome matches Err(m) && m@
                        == e@)),
                }),
                InstallState::Locating => (ev matches InstallEvent::Located(found)
                    && match found {
                    Some(exe) => (final(self).spec_state() matches InstallState::Preparing {
                        exe: st,
                    } && st@ == exe@) && (r matches InstallCommand::Prepare { exe: p } && p@
                        == exe@),
                    None => final(self).spec_state() is Finished && (r matches
                        InstallCommand::Finish { outcome } && (outcome matches Err(m) && m@
                        == "Could not find executable in extracted archive"@)),
                }),
                InstallState::Preparing { exe } => (ev matches InstallEvent::Prepared(res)
                    && match res {
                    Ok(_) => (final(self).spec_state() matches InstallState::CleaningUp { exe: st }
                        && st@ == exe@) && r matches InstallCommand::RemoveDir { dir },
                    Err(e) => final(self).spec_state() is Finished && (r matches
                        InstallCommand::Finish { outcome } && (outcome matches Err(m) && m@
                        == e@)),
                }),
                InstallState::CleaningUp { exe } => final(self).spec_state() is Finished && (
                r matches InstallCommand::Finish { outcome } && (outcome matches Ok(p) && p@
                    == exe@)),
                InstallState::Finished => false,
            },
    {
        let mut current = InstallState::Finished;
        core::mem::swap(&mut self.state, &mut current);
        match (current, ev) {
            (InstallState::Probing, InstallEvent::ExistingExe(found)) => {
                match found {
                    Option::Some(exe) => {
                        self.state = InstallState::Finished;
                        InstallCommand::Finish { outcome: Ok(exe) }
                    },
                    Option::None => {
                        self.state = InstallState::MakingDirs;
                        InstallCommand::MakeDirs {
                            download_dir: self.download_dir.clone(),
                            install_dir: self.install_dir.clone(),
                        }
                    },
                }
            },
            (InstallState::MakingDirs, InstallEvent::DirsMade(res)) => {
                match res {
                    Result::Ok(_) => {
                        self.state = InstallState::Downloading;
                        InstallCommand::Download {
                            url: self.archive_url.clone(),
                            download_dir: self.download_dir.clone(),
                        }
                    },
                    Result::Err(e) => {
                        self.state = InstallState::Finished;
                        InstallCommand::Finish { outcome: Err(e) }
                    },
                }
            },
            (InstallState::Downloading, InstallEvent::Downloaded(res)) => {
                match res {
                    Result::Ok(path) => {
                        self.state = InstallState::Extracting;
                        InstallCommand::Extract {
                            archive_path: path,
                            install_dir: self.install_dir.clone(),
                        }
                    },
                    Result::Err(e) => {
                        self.state = InstallState::Finished;
                        InstallCommand::Finish { outcome: Err(e) }
                    },
                }
            },
            (InstallState::Extracting, InstallEvent::Extracted(res)) => {
                match res {
                    Result::Ok(_) => {
                        self.state = InstallState::Locating;
                        InstallCommand::Locate {
                            install_dir: self.install_dir.clone(),
                            cmd: clone_opt(&self.cmd_name),
                        }
                    },
                    Result::Err(e) => {
                        self.state = InstallState::Finished;
                        InstallCommand::Finish { outcome: Err(e) }
                    },
                }
            },
            (InstallState::Locating, InstallEvent::Located(found)) => {
                match found {
                    Option::Some(exe) => {
                        let cmd_exe = exe.clone();
                        self.state = InstallState::Preparing { exe };
                        InstallCommand::Prepare { exe: cmd_exe }
                    },
                    Option::None => {
                        self.state = InstallState::Finished;
                        InstallCommand::Finish {
                            outcome: Err(
                                "Could not find executable in extracted archive".to_owned(),
                            ),
                        }
                    },
                }
            },
            (InstallState::Preparing { exe }, InstallEvent::Prepared(res)) => {
                match res {
                    Result::Ok(_) => {
                        let dir = self.download_dir.clone();
                        self.state = InstallState::CleaningUp { exe };
                        InstallCommand::RemoveDir { dir }
                    },
                    Result::Err(e) => {
                        self.state = InstallState::Finished;
                        InstallCommand::Finish { outcome: Err(e) }
                    },
                }
            },
            (InstallState::CleaningUp { exe }, _) => {
                self.state = InstallState::Finished;
                InstallCommand::Finish { outcome: Ok(exe) }
            },
            (st, _) => {
                // excluded by the caller's obligation to report the
                // event the current state expects
                self.state = st;
                assert(false);
                unreached()
            },
        }
    }
}

fn clone_opt(s: &Option<String>) -> (r: Option<String>)
    ensures
        r == *s,
{
    match s {
        Option::Some(x) => Some(x.clone()),
        Option::None => None,
    }
}

} // verus!
