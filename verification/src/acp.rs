//! ACP protocol gateway: session bookkeeping and the dispatch of the
//! JSON-RPC methods the gateway answers.  The HTTP transport parses a
//! request into [`AcpRequest`] and renders the returned reply; the
//! subprocess work that `session/prompt` delegates is handed back to
//! the caller as a [`AcpAction::RunBridge`] instruction.

use vstd::prelude::*;
use vstd::multiset::Multiset;
use crate::strutil::{lex_leq, lemma_lex_leq_total, lemma_lex_leq_trans, str_concat, str_eq, str_le};

verus! {

/// What a caller-supplied string maps to under Unicode uppercasing.
pub uninterp spec fn upper_of(s: Seq<char>) -> Seq<char>;

/// Relies on `str::to_uppercase`: the result depends on the
/// characters alone.
#[verifier::external_body]
fn to_upper(s: &str) -> (r: String)
    ensures
        r@ == upper_of(s@),
{
    s.to_uppercase()
}

/// One block of a prompt array: a text block, or any other kind,
/// which prompt concatenation ignores.
pub enum PromptBlock {
    Text(String),
    Other,
}

/// The texts of the text blocks, in order.
pub open spec fn texts_of(blocks: Seq<PromptBlock>) -> Seq<Seq<char>>
    decreases blocks.len(),
{
    if blocks.len() == 0 {
        Seq::empty()
    } else {
        let rest = texts_of(blocks.skip(1));
        match blocks[0] {
            PromptBlock::Text(t) => seq![t@] + rest,
            PromptBlock::Other => rest,
        }
    }
}

/// The texts joined with one newline between each pair.
pub open spec fn join_nl(texts: Seq<Seq<char>>) -> Seq<char>
    decreases texts.len(),
{
    if texts.len() == 0 {
        Seq::empty()
    } else if texts.len() == 1 {
        texts[0]
    } else {
        texts[0] + seq!['\n'] + join_nl(texts.skip(1))
    }
}

proof fn lemma_texts_of_push(blocks: Seq<PromptBlock>, b: PromptBlock)
    ensures
        texts_of(blocks.push(b)) == match b {
            PromptBlock::Text(t) => texts_of(blocks).push(t@),
            PromptBlock::Other => texts_of(blocks),
        },
    decreases blocks.len(),
{
    let pushed = blocks.push(b);
    if blocks.len() == 0 {
        assert(pushed.len() == 1);
        assert(pushed[0] == b);
        assert(pushed.skip(1) =~= Seq::<PromptBlock>::empty());
        assert(texts_of(pushed.skip(1)) == Seq::<Seq<char>>::empty());
        assert(texts_of(blocks) == Seq::<Seq<char>>::empty());
        match b {
            PromptBlock::Text(t) => {
                assert(texts_of(pushed) == seq![t@] + texts_of(pushed.skip(1)));
                assert(texts_of(pushed) =~= texts_of(blocks).push(t@));
            },
            PromptBlock::Other => {
                assert(texts_of(pushed) == texts_of(pushed.skip(1)));
                assert(texts_of(pushed) =~= texts_of(blocks));
            },
        }
    } else {
        assert(pushed.len() == blocks.len() + 1);
        assert(pushed[0] == blocks[0]);
        assert(pushed.skip(1) =~= blocks.skip(1).push(b));
        lemma_texts_of_push(blocks.skip(1), b);
        match b {
            PromptBlock::Text(t) => {
                match blocks[0] {
                    PromptBlock::Text(h) => {
                        assert(texts_of(pushed) == seq![h@] + texts_of(pushed.skip(1)));
                        assert(texts_of(blocks) == seq![h@] + texts_of(blocks.skip(1)));
                    },
                    PromptBlock::Other => {
                        assert(texts_of(pushed) == texts_of(pushed.skip(1)));
                        assert(texts_of(blocks) == texts_of(blocks.skip(1)));
                    },
                }
                assert(texts_of(pushed) =~= texts_of(blocks).push(t@));
            },
            PromptBlock::Other => {
                match blocks[0] {
                    PromptBlock::Text(h) => {
                        assert(texts_of(pushed) == seq![h@] + texts_of(pushed.skip(1)));
                        assert(texts_of(blocks) == seq![h@] + texts_of(blocks.skip(1)));
                    },
                    PromptBlock::Other => {
                        assert(texts_of(pushed) == texts_of(pushed.skip(1)));
                        assert(texts_of(blocks) == texts_of(blocks.skip(1)));
                    },
                }
                assert(texts_of(pushed) =~= texts_of(blocks));
            },
        }
    }
}

proof fn lemma_join_nl_push(texts: Seq<Seq<char>>, t: Seq<char>)
    ensures
        join_nl(texts.push(t)) == if texts.len() == 0 {
            t
        } else {
            join_nl(texts) + seq!['\n'] + t
        },
    decreases texts.len(),
{
    let pushed = texts.push(t);
    if texts.len() == 0 {
        assert(pushed.len() == 1);
        assert(pushed[0] == t);
    } else {
        assert(pushed[0] == texts[0]);
        assert(pushed.skip(1) =~= texts.skip(1).push(t));
        lemma_join_nl_push(texts.skip(1), t);
        if texts.len() == 1 {
            assert(texts.skip(1).len() == 0);
            assert(join_nl(pushed) =~= join_nl(texts) + seq!['\n'] + t);
        } else {
            assert(join_nl(pushed) =~= join_nl(texts) + seq!['\n'] + t);
        }
    }
}

/// Concatenates all text blocks of a prompt, newline-joined; blocks
/// of any other kind are ignored.
pub fn concat_prompt(blocks: &Vec<PromptBlock>) -> (r: String)
    ensures
        r@ == join_nl(texts_of(blocks@)),
{
    let mut s = String::new();
    let mut any = false;
    let mut i: usize = 0;
    while i < blocks.len()
        invariant
            i <= blocks.len(),
            s@ == join_nl(texts_of(blocks@.subrange(0, i as int))),
            any == (texts_of(blocks@.subrange(0, i as int)).len() > 0),
        decreases blocks.len() - i,
    {
        let ghost prefix = blocks@.subrange(0, i as int);
        proof {
            assert(blocks@.subrange(0, i + 1) =~= prefix.push(blocks@[i as int]));
            lemma_texts_of_push(prefix, blocks@[i as int]);
        }
        match &blocks[i] {
            PromptBlock::Text(t) => {
                proof {
                    lemma_join_nl_push(texts_of(prefix), t@);
                }
                if any {
                    s.append("\n");
                    proof {
                        reveal_strlit("\n");
                        assert("\n"@ =~= seq!['\n']);
                    }
                } else {
                    any = true;
                }
                s.append(t.as_str());
            },
            PromptBlock::Other => {},
        }
        i += 1;
    }
    proof {
        assert(blocks@.subrange(0, blocks@.len() as int) =~= blocks@);
    }
    s
}

/// A registry preset that a provider name can resolve to.
pub struct Preset {
    pub name: String,
    pub description: String,
    pub command: String,
    pub args: Vec<String>,
}

/// One provider as reported by `_providers/list`.
pub struct ProviderInfo {
    pub id: String,
    pub name: String,
    pub description: String,
    pub command: String,
    pub available: bool,
}

/// The listing order: available providers before unavailable ones,
/// alphabetically by name within each group.
pub open spec fn provider_le(a: ProviderInfo, b: ProviderInfo) -> bool {
    (a.available && !b.available) || (a.available == b.available && lex_leq(a.name@, b.name@))
}

proof fn lemma_provider_le_total(a: ProviderInfo, b: ProviderInfo)
    ensures
        provider_le(a, b) || provider_le(b, a),
{
    lemma_lex_leq_total(a.name@, b.name@);
}

proof fn lemma_provider_le_trans(a: ProviderInfo, b: ProviderInfo, c: ProviderInfo)
    requires
        provider_le(a, b),
        provider_le(b, c),
    ensures
        provider_le(a, c),
{
    if a.available == b.available && b.available == c.available {
        lemma_lex_leq_trans(a.name@, b.name@, c.name@);
    }
}

fn provider_le_exec(a: &ProviderInfo, b: &ProviderInfo) -> (r: bool)
    ensures
        r == provider_le(*a, *b),
{
    if a.available && !b.available {
        true
    } else if a.available == b.available {
        str_le(a.name.as_str(), b.name.as_str())
    } else {
        false
    }
}

/// Sorts providers available-first, then alphabetically by name
/// within each group; the result is a permutation of the input.
pub fn sort_providers(input: Vec<ProviderInfo>) -> (r: Vec<ProviderInfo>)
    ensures
        r@.len() == input@.len(),
        forall|i: int, j: int|
            0 <= i < j < r@.len() ==> provider_le(#[trigger] r@[i], #[trigger] r@[j]),
        r@.to_multiset() == input@.to_multiset(),
{
    broadcast use vstd::seq_lib::group_to_multiset_ensures;

    let mut rest = input;
    let mut out: Vec<ProviderInfo> = Vec::new();
    proof {
        assert(out@.to_multiset().add(rest@.to_multiset()) =~= rest@.to_multiset());
    }
    while rest.len() > 0
        invariant
            out@.len() + rest@.len() == input@.len(),
            out@.to_multiset().add(rest@.to_multiset()) == input@.to_multiset(),
            forall|i: int, j: int|
                0 <= i < j < out@.len() ==> provider_le(#[trigger] out@[i], #[trigger] out@[j]),
            forall|i: int, j: int|
                0 <= i < out@.len() && 0 <= j < rest@.len() ==> provider_le(
                    #[trigger] out@[i],
                    #[trigger] rest@[j],
                ),
        decreases rest@.len(),
    {
        broadcast use vstd::seq_lib::group_to_multiset_ensures;

        let mut m: usize = 0;
        let mut k: usize = 1;
        proof {
            lemma_provider_le_total(rest@[0], rest@[0]);
        }
        while k < rest.len()
            invariant
                m < k <= rest.len(),
                forall|j: int| 0 <= j < k ==> provider_le(rest@[m as int], #[trigger] rest@[j]),
            decreases rest.len() - k,
        {
            if provider_le_exec(&rest[k], &rest[m]) {
                proof {
                    lemma_provider_le_total(rest@[k as int], rest@[k as int]);
                    assert forall|j: int| 0 <= j < k + 1 implies provider_le(
                        rest@[k as int],
                        #[trigger] rest@[j],
                    ) by {
                        if j < k {
                            lemma_provider_le_trans(rest@[k as int], rest@[m as int], rest@[j]);
                        }
                    }
                }
                m = k;
            } else {
                proof {
                    lemma_provider_le_total(rest@[m as int], rest@[k as int]);
                }
            }
            k += 1;
        }
        let ghost rest_pre = rest@;
        let ghost out_pre = out@;
        let x = rest.remove(m);
        out.push(x);
        proof {
            assert(rest@ == rest_pre.remove(m as int));
            assert(rest_pre.to_multiset().contains(x));
            assert(out@.to_multiset().add(rest@.to_multiset()) =~= out_pre.to_multiset().add(
                rest_pre.to_multiset(),
            ));
            assert forall|i: int, j: int|
                0 <= i < j < out@.len() implies provider_le(
                #[trigger] out@[i],
                #[trigger] out@[j],
            ) by {
                if j == out@.len() - 1 {
                    assert(out@[i] == out_pre[i]);
                    assert(provider_le(out_pre[i], rest_pre[m as int]));
                }
            }
            assert forall|i: int, j: int|
                0 <= i < out@.len() && 0 <= j < rest@.len() implies provider_le(
                #[trigger] out@[i],
                #[trigger] rest@[j],
            ) by {
                let jp: int = if j < m { j } else { j + 1 };
                assert(rest@[j] == rest_pre[jp]);
                if i < out@.len() - 1 {
                    assert(provider_le(out_pre[i], rest_pre[jp]));
                } else {
                    assert(out@[i] == rest_pre[m as int]);
                    assert(provider_le(rest_pre[m as int], rest_pre[jp]));
                }
            }
        }
    }
    proof {
        assert(rest@.to_multiset() =~= Multiset::<ProviderInfo>::empty());
        assert(out@.to_multiset().add(rest@.to_multiset()) =~= out@.to_multiset());
    }
    out
}

/// One gateway session: working directory, mode and chosen provider,
/// keyed by an opaque session id.
pub struct AcpSession {
    pub session_id: String,
    pub cwd: String,
    pub mode: String,
    pub provider: Option<String>,
}

/// A parsed ACP request, one variant per method the gateway answers.
/// Ids minted outside (the `session/new` session id) arrive as fields,
/// so dispatch itself is a function of its inputs.
pub enum AcpRequest {
    Initialize { protocol_version: u64 },
    ProvidersList { available: Vec<bool> },
    SessionNew { session_id: String, cwd: Option<String>, provider: Option<String>, role: Option<String> },
    SessionPrompt { session_id: Option<String>, prompt: Vec<PromptBlock> },
    SessionCancel { session_id: Option<String> },
    SessionLoad,
    SessionSetMode { session_id: Option<String>, mode_id: Option<String> },
    Extension { method: String },
    Unknown { method: String },
}

/// The result half of a JSON-RPC response, one variant per shape.
pub enum AcpReply {
    InitializeResult { protocol_version: u64 },
    ProvidersResult { providers: Vec<ProviderInfo> },
    SessionNewResult { session_id: String, provider: String, role: String },
    PromptResult { output: String },
    CancelResult,
    SetModeResult,
    RpcError { code: i64, message: String },
}

/// What the transport should do next: answer at once, or run the
/// subprocess bridge and answer from its outcome.
pub enum AcpAction {
    Reply(AcpReply),
    RunBridge { command: String, args: Vec<String>, prompt: String },
}

/// The ACP gateway: the fixed provider presets and the live sessions.
pub struct AcpGateway {
    presets: Vec<Preset>,
    sessions: Vec<AcpSession>,
}

impl AcpGateway {
    /// The provider presets, as given at construction.
    pub closed spec fn spec_presets(self) -> Seq<Preset> {
        self.presets@
    }

    /// The live sessions.
    pub closed spec fn spec_sessions(self) -> Seq<AcpSession> {
        self.sessions@
    }

    /// Well-formedness: session ids and preset names are unique keys.
    pub open spec fn wf(self) -> bool {
        &&& forall|i: int, j: int|
            0 <= i < j < self.spec_sessions().len() ==> (#[trigger] self.spec_sessions()[i]).session_id@
                != (#[trigger] self.spec_sessions()[j]).session_id@
        &&& forall|i: int, j: int|
            0 <= i < j < self.spec_presets().len() ==> (#[trigger] self.spec_presets()[i]).name@
                != (#[trigger] self.spec_presets()[j]).name@
    }

    /// Whether a session is live under `id`.
    pub open spec fn contains_session(self, id: Seq<char>) -> bool {
        exists|i: int|
            0 <= i < self.spec_sessions().len() && (#[trigger] self.spec_sessions()[i]).session_id@
                == id
    }

    /// The session stored under `id`.
    pub open spec fn session_of(self, id: Seq<char>) -> AcpSession {
        self.spec_sessions()[choose|i: int|
            0 <= i < self.spec_sessions().len() && (#[trigger] self.spec_sessions()[i]).session_id@
                == id]
    }

    /// Whether a preset named `name` exists.
    pub open spec fn contains_preset(self, name: Seq<char>) -> bool {
        exists|i: int|
            0 <= i < self.spec_presets().len() && (#[trigger] self.spec_presets()[i]).name@ == name
    }

    /// The preset named `name`.
    pub open spec fn preset_of(self, name: Seq<char>) -> Preset {
        self.spec_presets()[choose|i: int|
            0 <= i < self.spec_presets().len() && (#[trigger] self.spec_presets()[i]).name@ == name]
    }

    /// The provider a prompt for session `id` resolves to: the
    /// session's provider when the session is known and names one,
    /// the default provider otherwise.
    pub open spec fn resolved_provider(self, id: Seq<char>) -> Seq<char> {
        if self.contains_session(id) && self.session_of(id).provider is Some {
            self.session_of(id).provider->0@
        } else {
            "opencode"@
        }
    }

    proof fn lemma_presets_unique_from(self, pre: AcpGateway)
        requires
            pre.wf(),
            self.spec_presets() == pre.spec_presets(),
        ensures
            forall|i: int, j: int|
                0 <= i < j < self.spec_presets().len() ==> (#[trigger] self.spec_presets()[i]).name@
                    != (#[trigger] self.spec_presets()[j]).name@,
    {
        assert forall|i: int, j: int|
            0 <= i < j < self.spec_presets().len() implies (#[trigger] self.spec_presets()[i]).name@
            != (#[trigger] self.spec_presets()[j]).name@ by {
            assert(self.spec_presets()[i] == pre.spec_presets()[i]);
            assert(self.spec_presets()[j] == pre.spec_presets()[j]);
        }
    }

    pub proof fn lemma_session_at(self, i: int)
        requires
            self.wf(),
            0 <= i < self.spec_sessions().len(),
        ensures
            self.contains_session(self.spec_sessions()[i].session_id@),
            self.session_of(self.spec_sessions()[i].session_id@) == self.spec_sessions()[i],
    {
        let id = self.spec_sessions()[i].session_id@;
        assert(self.contains_session(id));
        let k = choose|k: int|
            0 <= k < self.spec_sessions().len() && (#[trigger] self.spec_sessions()[k]).session_id@
                == id;
        if k != i {
            assert(self.spec_sessions()[k].session_id@ == id);
            assert(false);
        }
    }

    /// A gateway over the given presets, with no sessions.  Presets
    /// carry distinct provider names, as registry entries do.
    pub fn new(presets: Vec<Preset>) -> (r: Self)
        requires
            forall|i: int, j: int|
                0 <= i < j < presets@.len() ==> (#[trigger] presets@[i]).name@ != (
                #[trigger] presets@[j]).name@,
        ensures
            r.wf(),
            r.spec_presets() == presets@,
            r.spec_sessions().len() == 0,
    {
        AcpGateway { presets, sessions: Vec::new() }
    }

    fn find_session(&self, id: &str) -> (r: Option<usize>)
        ensures
            r matches Some(i) ==> i < self.spec_sessions().len()
                && self.spec_sessions()[i as int].session_id@ == id@,
            r is None ==> !self.contains_session(id@),
    {
        let mut i: usize = 0;
        while i < self.sessions.len()
            invariant
                i <= self.sessions.len(),
                forall|j: int|
                    0 <= j < i ==> (#[trigger] self.sessions@[j]).session_id@ != id@,
            decreases self.sessions.len() - i,
        {
            if str_eq(self.sessions[i].session_id.as_str(), id) {
                return Some(i);
            }
            i += 1;
        }
        None
    }

    fn find_preset(&self, name: &str) -> (r: Option<usize>)
        ensures
            r matches Some(i) ==> i < self.spec_presets().len()
                && self.spec_presets()[i as int].name@ == name@,
            r is None ==> !self.contains_preset(name@),
    {
        let mut i: usize = 0;
        while i < self.presets.len()
            invariant
                i <= self.presets.len(),
                forall|j: int| 0 <= j < i ==> (#[trigger] self.presets@[j]).name@ != name@,
            decreases self.presets.len() - i,
        {
            if str_eq(self.presets[i].name.as_str(), name) {
                return Some(i);
            }
            i += 1;
        }
        None
    }

    /// Records a new session under `session_id`, replacing any
    /// session already stored under the same id.
    pub fn create_session(
        &mut self,
        session_id: String,
        cwd: String,
        mode: String,
        provider: Option<String>,
    )
        requires
            old(self).wf(),
        ensures
            final(self).wf(),
            final(self).spec_presets() == old(self).spec_presets(),
            final(self).contains_session(session_id@),
            final(self).session_of(session_id@).session_id@ == session_id@,
            final(self).session_of(session_id@).cwd == cwd,
            final(self).session_of(session_id@).mode == mode,
            final(self).session_of(session_id@).provider == provider,
            forall|k: Seq<char>|
                k != session_id@ ==> (#[trigger] final(self).contains_session(k) <==> old(
                    self,
                ).contains_session(k)),
            forall|k: Seq<char>|
                k != session_id@ && old(self).contains_session(k)
                    ==> #[trigger] final(self).session_of(k) == old(self).session_of(k),
    {
        let ghost pre = *self;
        let found = self.find_session(session_id.as_str());
        let session = AcpSession { session_id, cwd, mode, provider };
        match found {
            Option::Some(i) => {
                set_session(&mut self.sessions, i, session);
                proof {
                    assert forall|p: int|
                        0 <= p < self.sessions@.len() implies (#[trigger] self.sessions@[p]).session_id@
                        == pre.sessions@[p].session_id@ by {}
                    self.lemma_presets_unique_from(pre);
                    assert(self.wf());
                    self.lemma_session_at(i as int);
                    assert forall|k: Seq<char>|
                        k != session.session_id@ implies (#[trigger] self.contains_session(k) <==> pre
                        .contains_session(k)) by {
                        if self.contains_session(k) {
                            let j = choose|j: int|
                                0 <= j < self.sessions@.len() && (#[trigger] self.sessions@[j]).session_id@
                                    == k;
                            assert(pre.sessions@[j].session_id@ == k);
                        }
                        if pre.contains_session(k) {
                            let j = choose|j: int|
                                0 <= j < pre.sessions@.len() && (#[trigger] pre.sessions@[j]).session_id@
                                    == k;
                            assert(self.sessions@[j].session_id@ == k);
                        }
                    }
                    assert forall|k: Seq<char>|
                        k != session.session_id@ && pre.contains_session(k) implies #[trigger] self
                        .session_of(k) == pre.session_of(k) by {
                        assert(self.contains_session(k));
                        let j = choose|j: int|
                            0 <= j < self.sessions@.len() && (#[trigger] self.sessions@[j]).session_id@
                                == k;
                        assert(self.sessions@[j].session_id@ == k);
                        assert(j != i);
                        assert(self.sessions@[j] == pre.sessions@[j]);
                        self.lemma_session_at(j);
                        pre.lemma_session_at(j);
                    }
                }
            },
            Option::None => {
                self.sessions.push(session);
                proof {
                    let n = self.sessions@.len() - 1;
                    assert(self.sessions@[n].session_id@ == session.session_id@);
                    self.lemma_presets_unique_from(pre);
                    assert(self.wf()) by {
                        assert forall|p: int, q: int|
                            0 <= p < q < self.sessions@.len() implies (
                        #[trigger] self.sessions@[p]).session_id@ != (
                        #[trigger] self.sessions@[q]).session_id@ by {
                            if q == n {
                                assert(self.sessions@[p] == pre.sessions@[p]);
                                if self.sessions@[p].session_id@ == session.session_id@ {
                                    assert(pre.contains_session(session.session_id@));
                                }
                            }
                        }
                    }
                    self.lemma_session_at(n);
                    assert forall|k: Seq<char>|
                        k != session.session_id@ implies (#[trigger] self.contains_session(k) <==> pre
                        .contains_session(k)) by {
                        if self.contains_session(k) {
                            let j = choose|j: int|
                                0 <= j < self.sessions@.len() && (#[trigger] self.sessions@[j]).session_id@
                                    == k;
                            assert(j != n);
                            assert(pre.sessions@[j].session_id@ == k);
                        }
                        if pre.contains_session(k) {
                            let j = choose|j: int|
                                0 <= j < pre.sessions@.len() && (#[trigger] pre.sessions@[j]).session_id@
                                    == k;
                            assert(self.sessions@[j].session_id@ == k);
                        }
                    }
                    assert forall|k: Seq<char>|
                        k != session.session_id@ && pre.contains_session(k) implies #[trigger] self
                        .session_of(k) == pre.session_of(k) by {
                        assert(self.contains_session(k));
                        let j = choose|j: int|
                            0 <= j < self.sessions@.len() && (#[trigger] self.sessions@[j]).session_id@
                                == k;
                        assert(self.sessions@[j].session_id@ == k);
                        assert(j != n);
                        assert(self.sessions@[j] == pre.sessions@[j]);
                        self.lemma_session_at(j);
                        pre.lemma_session_at(j);
                    }
                }
            },
        }
    }

    /// Forgets the session stored under `id`; absence is not an
    /// error.  Other sessions are untouched.
    pub fn remove_session(&mut self, id: &str)
        requires
            old(self).wf(),
        ensures
            final(self).wf(),
            final(self).spec_presets() == old(self).spec_presets(),
            !final(self).contains_session(id@),
            forall|k: Seq<char>|
                k != id@ ==> (#[trigger] final(self).contains_session(k) <==> old(
                    self,
                ).contains_session(k)),
            forall|k: Seq<char>|
                k != id@ && old(self).contains_session(k) ==> #[trigger] final(self).session_of(k)
                    == old(self).session_of(k),
    {
        let ghost pre = *self;
        if let Option::Some(i) = self.find_session(id) {
            self.sessions.remove(i);
            proof {
                self.lemma_presets_unique_from(pre);
                assert(self.wf()) by {
                    assert forall|p: int, q: int|
                        0 <= p < q < self.sessions@.len() implies (
                    #[trigger] self.sessions@[p]).session_id@ != (
                    #[trigger] self.sessions@[q]).session_id@ by {
                        if p < i {
                            assert(self.sessions@[p] == pre.sessions@[p]);
                        } else {
                            assert(self.sessions@[p] == pre.sessions@[p + 1]);
                        }
                        if q < i {
                            assert(self.sessions@[q] == pre.sessions@[q]);
                        } else {
                            assert(self.sessions@[q] == pre.sessions@[q + 1]);
                        }
                    }
                };
                if self.contains_session(id@) {
                    let j = choose|j: int|
                        0 <= j < self.sessions@.len() && (#[trigger] self.sessions@[j]).session_id@
                            == id@;
                    if j < i {
                        assert(pre.sessions@[j].session_id@ == id@);
                        assert(false);
                    } else {
                        assert(pre.sessions@[j + 1].session_id@ == id@);
                        assert(false);
                    }
                }
                assert forall|k: Seq<char>|
                    k != id@ implies (#[trigger] self.contains_session(k) <==> pre.contains_session(
                    k,
                )) by {
                    if pre.contains_session(k) {
                        let j = choose|j: int|
                            0 <= j < pre.sessions@.len() && (#[trigger] pre.sessions@[j]).session_id@
                                == k;
                        if j < i {
                            assert(self.sessions@[j].session_id@ == k);
                        } else {
                            assert(j != i);
                            assert(self.sessions@[j - 1].session_id@ == k);
                        }
                    }
                    if self.contains_session(k) {
                        let j = choose|j: int|
                            0 <= j < self.sessions@.len() && (#[trigger] self.sessions@[j]).session_id@
                                == k;
                        if j < i {
                            assert(pre.sessions@[j].session_id@ == k);
                        } else {
                            assert(pre.sessions@[j + 1].session_id@ == k);
                        }
                    }
                }
                assert forall|k: Seq<char>|
                    k != id@ && pre.contains_session(k) implies #[trigger] self.session_of(k) == pre
                    .session_of(k) by {
                    assert(self.contains_session(k));
                    let j = choose|j: int|
                        0 <= j < self.sessions@.len() && (#[trigger] self.sessions@[j]).session_id@
                            == k;
                    assert(self.sessions@[j].session_id@ == k);
                    if j < i {
                        assert(pre.sessions@[j] == self.sessions@[j]);
                        self.lemma_session_at(j);
                        pre.lemma_session_at(j);
                    } else {
                        assert(pre.sessions@[j + 1] == self.sessions@[j]);
                        self.lemma_session_at(j);
                        pre.lemma_session_at(j + 1);
                    }
                }
            }
        }
    }
}

fn set_session(v: &mut Vec<AcpSession>, i: usize, session: AcpSession)
    requires
        i < old(v).len(),
    ensures
        final(v)@ == old(v)@.update(i as int, session),
{
    let e = &mut v[i];
    *e = session;
}

/// The provider entry built for one preset and its probe result.
pub open spec fn provider_entry(p: Preset, av: bool) -> ProviderInfo {
    ProviderInfo { id: p.name, name: p.name, description: p.description, command: p.command, available: av }
}

fn clone_strings(v: &Vec<String>) -> (r: Vec<String>)
    ensures
        r@ == v@,
{
    let mut r: Vec<String> = Vec::new();
    let mut i: usize = 0;
    while i < v.len()
        invariant
            i <= v.len(),
            r@ =~= v@.subrange(0, i as int),
        decreases v.len() - i,
    {
        r.push(v[i].clone());
        i += 1;
    }
    proof {
        assert(r@ =~= v@);
    }
    r
}

impl AcpGateway {
    /// Answers `_providers/list`: one entry per preset, carrying the
    /// caller's probe result (`available[i]` says whether preset `i`'s
    /// command resolved on the host), sorted available-first and
    /// alphabetically by name within each group.
    pub fn providers_list(&self, available: &Vec<bool>) -> (r: AcpReply)
        requires
            available@.len() == self.spec_presets().len(),
        ensures
            r matches AcpReply::ProvidersResult { providers } && {
                &&& providers@.len() == self.spec_presets().len()
                &&& forall|i: int, j: int|
                    0 <= i < j < providers@.len() ==> provider_le(
                        #[trigger] providers@[i],
                        #[trigger] providers@[j],
                    )
                &&& providers@.to_multiset() == Seq::new(
                    self.spec_presets().len(),
                    (|i: int| provider_entry(self.spec_presets()[i], available@[i])),
                ).to_multiset()
            },
    {
        let mut built: Vec<ProviderInfo> = Vec::new();
        let mut i: usize = 0;
        while i < self.presets.len()
            invariant
                i <= self.presets.len(),
                available@.len() == self.presets@.len(),
                built@.len() == i,
                forall|j: int|
                    0 <= j < i ==> #[trigger] built@[j] == provider_entry(
                        self.presets@[j],
                        available@[j],
                    ),
            decreases self.presets.len() - i,
        {
            let p = &self.presets[i];
            built.push(
                ProviderInfo {
                    id: p.name.clone(),
                    name: p.name.clone(),
                    description: p.description.clone(),
                    command: p.command.clone(),
                    available: available[i],
                },
            );
            i += 1;
        }
        proof {
            assert(built@ =~= Seq::new(
                self.spec_presets().len(),
                (|i: int| provider_entry(self.spec_presets()[i], available@[i])),
            ));
        }
        AcpReply::ProvidersResult { providers: sort_providers(built) }
    }

    /// Maps the bridge's outcome to the `session/prompt` response: a
    /// result with the agent's output, or an error carrying the
    /// bridge's failure message.
    pub fn prompt_outcome_reply(outcome: Result<String, String>) -> (r: AcpReply)
        ensures
            match outcome {
                Ok(output) => r matches AcpReply::PromptResult { output: o } && o@ == output@,
                Err(e) => r matches AcpReply::RpcError { code, message } && code == -32000
                    && message@ == "Agent process error: "@ + e@,
            },
    {
        match outcome {
            Result::Ok(output) => AcpReply::PromptResult { output },
            Result::Err(e) => AcpReply::RpcError {
                code: -32000,
                message: str_concat("Agent process error: ", e.as_str()),
            },
        }
    }

    /// Dispatches one parsed request.  Every method answers; only
    /// `session/new` and `session/cancel` change the session table,
    /// and `session/prompt` may instruct the caller to run the
    /// subprocess bridge.
    pub fn handle(&mut self, req: AcpRequest) -> (r: AcpAction)
        requires
            old(self).wf(),
            req matches AcpRequest::ProvidersList { available } ==> available@.len() == old(
                self,
            ).spec_presets().len(),
        ensures
            final(self).wf(),
            final(self).spec_presets() == old(self).spec_presets(),
            match req {
                AcpRequest::Initialize { protocol_version } => {
                    &&& final(self).spec_sessions() == old(self).spec_sessions()
                    &&& r == AcpAction::Reply(AcpReply::InitializeResult { protocol_version })
                },
                AcpRequest::ProvidersList { available } => {
                    &&& final(self).spec_sessions() == old(self).spec_sessions()
                    &&& r matches AcpAction::Reply(rep) && (rep matches
                        AcpReply::ProvidersResult { providers } && {
                        &&& providers@.len() == old(self).spec_presets().len()
                        &&& forall|i: int, j: int|
                            0 <= i < j < providers@.len() ==> provider_le(
                                #[trigger] providers@[i],
                                #[trigger] providers@[j],
                            )
                        &&& providers@.to_multiset() == Seq::new(
                            old(self).spec_presets().len(),
                            (|i: int| provider_entry(
                                old(self).spec_presets()[i],
                                available@[i],
                            )),
                        ).to_multiset()
                    })
                },
                AcpRequest::SessionNew { session_id, cwd, provider, role } => {
                    &&& final(self).contains_session(session_id@)
                    &&& final(self).session_of(session_id@).cwd@ == (match cwd {
                        Some(c) => c@,
                        None => "."@,
                    })
                    &&& final(self).session_of(session_id@).mode@ == "default"@
                    &&& final(self).session_of(session_id@).provider == provider
                    &&& forall|k: Seq<char>|
                        k != session_id@ ==> (#[trigger] final(self).contains_session(k) <==> old(
                            self,
                        ).contains_session(k))
                    &&& forall|k: Seq<char>|
                        k != session_id@ && old(self).contains_session(k)
                            ==> #[trigger] final(self).session_of(k) == old(self).session_of(k)
                    &&& r matches AcpAction::Reply(rep) && (rep matches
                        AcpReply::SessionNewResult { session_id: rid, provider: rp, role: rr } && {
                        &&& rid@ == session_id@
                        &&& rp@ == (match provider {
                            Some(p) => p@,
                            None => "opencode"@,
                        })
                        &&& rr@ == (match role {
                            Some(ro) => upper_of(ro@),
                            None => "CRAFTER"@,
                        })
                    })
                },
                AcpRequest::SessionPrompt { session_id, prompt } => {
                    &&& final(self).spec_sessions() == old(self).spec_sessions()
                    &&& match session_id {
                        None => r matches AcpAction::Reply(rep) && (rep matches
                            AcpReply::RpcError { code, message } && code == -32602 && message@
                            == "Missing sessionId"@),
                        Some(sid) => {
                            let prov = old(self).resolved_provider(sid@);
                            if old(self).contains_preset(prov) {
                                r matches AcpAction::RunBridge { command, args, prompt: ptext } && {
                                    &&& command@ == old(self).preset_of(prov).command@
                                    &&& args@ == old(self).preset_of(prov).args@
                                    &&& ptext@ == join_nl(texts_of(prompt@))
                                }
                            } else {
                                r matches AcpAction::Reply(rep) && (rep matches
                                    AcpReply::RpcError { code, message } && code == -32000
                                    && message@ == "Unknown provider: "@ + prov)
                            }
                        },
                    }
                },
                AcpRequest::SessionCancel { session_id } => {
                    &&& match session_id {
                        Some(sid) => {
                            &&& !final(self).contains_session(sid@)
                            &&& forall|k: Seq<char>|
                                k != sid@ ==> (#[trigger] final(self).contains_session(k) <==> old(
                                    self,
                                ).contains_session(k))
                            &&& forall|k: Seq<char>|
                                k != sid@ && old(self).contains_session(k)
                                    ==> #[trigger] final(self).session_of(k) == old(
                                    self,
                                ).session_of(k)
                        },
                        None => final(self).spec_sessions() == old(self).spec_sessions(),
                    }
                    &&& r == AcpAction::Reply(AcpReply::CancelResult)
                },
                AcpRequest::SessionLoad => {
                    &&& final(self).spec_sessions() == old(self).spec_sessions()
                    &&& r matches AcpAction::Reply(rep) && (rep matches
                        AcpReply::RpcError { code, message } && code == -32601 && message@
                        == "session/load not supported - create a new session instead"@)
                },
                AcpRequest::SessionSetMode { session_id, mode_id } => {
                    &&& final(self).spec_sessions() == old(self).spec_sessions()
                    &&& if session_id is Some && mode_id is Some {
                        r == AcpAction::Reply(AcpReply::SetModeResult)
                    } else {
                        r matches AcpAction::Reply(rep) && (rep matches
                            AcpReply::RpcError { code, message } && code == -32602 && message@
                            == "Missing sessionId or modeId"@)
                    }
                },
                AcpRequest::Extension { method } => {
                    &&& final(self).spec_sessions() == old(self).spec_sessions()
                    &&& r matches AcpAction::Reply(rep) && (rep matches
                        AcpReply::RpcError { code, message } && code == -32601 && message@
                        == "Extension method not supported: "@ + method@)
                },
                AcpRequest::Unknown { method } => {
                    &&& final(self).spec_sessions() == old(self).spec_sessions()
                    &&& r matches AcpAction::Reply(rep) && (rep matches
                        AcpReply::RpcError { code, message } && code == -32601 && message@
                        == "Method not found: "@ + method@)
                },
            },
    {
        match req {
            AcpRequest::Initialize { protocol_version } => AcpAction::Reply(
                AcpReply::InitializeResult { protocol_version },
            ),
            AcpRequest::ProvidersList { available } => AcpAction::Reply(
                self.providers_list(&available),
            ),
            AcpRequest::SessionNew { session_id, cwd, provider, role } => {
                let cwd_str: String = match cwd {
                    Option::Some(c) => c,
                    Option::None => ".".to_owned(),
                };
                let reply_provider: String = match &provider {
                    Option::Some(p) => p.clone(),
                    Option::None => "opencode".to_owned(),
                };
                let reply_role: String = match &role {
                    Option::Some(ro) => to_upper(ro.as_str()),
                    Option::None => "CRAFTER".to_owned(),
                };
                let rid = session_id.clone();
                self.create_session(session_id, cwd_str, "default".to_owned(), provider);
                AcpAction::Reply(
                    AcpReply::SessionNewResult {
                        session_id: rid,
                        provider: reply_provider,
                        role: reply_role,
                    },
                )
            },
            AcpRequest::SessionPrompt { session_id, prompt } => {
                let sid: String = match session_id {
                    Option::Some(s) => s,
                    Option::None => {
                        return AcpAction::Reply(
                            AcpReply::RpcError {
                                code: -32602,
                                message: "Missing sessionId".to_owned(),
                            },
                        );
                    },
                };
                let prompt_text = concat_prompt(&prompt);
                let prov: String = match self.find_session(sid.as_str()) {
                    Option::Some(i) => {
                        proof {
                            self.lemma_session_at(i as int);
                        }
                        match &self.sessions[i].provider {
                            Option::Some(p) => p.clone(),
                            Option::None => "opencode".to_owned(),
                        }
                    },
                    Option::None => "opencode".to_owned(),
                };
                match self.find_preset(prov.as_str()) {
                    Option::Some(pi) => {
                        proof {
                            let provv = self.resolved_provider(sid@);
                            assert(self.contains_preset(provv));
                            let k = choose|k: int|
                                0 <= k < self.spec_presets().len() && (
                                #[trigger] self.spec_presets()[k]).name@ == provv;
                            if k != pi {
                                assert(self.spec_presets()[k].name@ == provv);
                                assert(self.spec_presets()[pi as int].name@ == provv);
                                assert(false);
                            }
                        }
                        AcpAction::RunBridge {
                            command: self.presets[pi].command.clone(),
                            args: clone_strings(&self.presets[pi].args),
                            prompt: prompt_text,
                        }
                    },
                    Option::None => AcpAction::Reply(
                        AcpReply::RpcError {
                            code: -32000,
                            message: str_concat("Unknown provider: ", prov.as_str()),
                        },
                    ),
                }
            },
            AcpRequest::SessionCancel { session_id } => {
                if let Option::Some(sid) = &session_id {
                    self.remove_session(sid.as_str());
                }
                AcpAction::Reply(AcpReply::CancelResult)
            },
            AcpRequest::SessionLoad => AcpAction::Reply(
                AcpReply::RpcError {
                    code: -32601,
                    message: "session/load not supported - create a new session instead".to_owned(),
                },
            ),
            AcpRequest::SessionSetMode { session_id, mode_id } => {
                if session_id.is_some() && mode_id.is_some() {
                    AcpAction::Reply(AcpReply::SetModeResult)
                } else {
                    AcpAction::Reply(
                        AcpReply::RpcError {
                            code: -32602,
                            message: "Missing sessionId or modeId".to_owned(),
                        },
                    )
                }
            },
            AcpRequest::Extension { method } => AcpAction::Reply(
                AcpReply::RpcError {
                    code: -32601,
                    message: str_concat("Extension method not supported: ", method.as_str()),
                },
            ),
            AcpRequest::Unknown { method } => AcpAction::Reply(
                AcpReply::RpcError {
                    code: -32601,
                    message: str_concat("Method not found: ", method.as_str()),
                },
            ),
        }
    }
}

} // verus!
