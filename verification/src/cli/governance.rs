//! Governance values: proposal types, vote choices and the statuses proposals are listed by.

use vstd::prelude::*;
use crate::cli::text::{quote, quoted, same_text};
use vstd::utf8::{char_is_scalar, encode_scalar, encode_utf8};

verus! {

/// The kind of a governance proposal.
#[derive(Debug, Clone, Copy, PartialEq, Eq, Structural)]
pub enum ProposalType {
    /// Change a protocol parameter.
    ParameterChange,
    /// Spend from the treasury.
    TreasurySpend,
    /// Release locked stake early.
    EmergencyUnlock,
    /// A text-only proposal.
    Text,
}

/// The proposal type a command-line value names, if any.
pub open spec fn proposal_type_named(s: Seq<char>) -> Option<ProposalType> {
    if s == "parameter-change"@ {
        Some(ProposalType::ParameterChange)
    } else if s == "treasury-spend"@ {
        Some(ProposalType::TreasurySpend)
    } else if s == "emergency-unlock"@ {
        Some(ProposalType::EmergencyUnlock)
    } else if s == "text"@ {
        Some(ProposalType::Text)
    } else {
        None
    }
}

/// The command-line name of a proposal type.
pub open spec fn proposal_type_name(p: ProposalType) -> Seq<char> {
    match p {
        ProposalType::ParameterChange => "parameter-change"@,
        ProposalType::TreasurySpend => "treasury-spend"@,
        ProposalType::EmergencyUnlock => "emergency-unlock"@,
        ProposalType::Text => "text"@,
    }
}

/// The error for an unknown proposal type.
pub open spec fn invalid_proposal_type_text(s: Seq<char>) -> Seq<char> {
    quoted("Invalid proposal type '"@, s, "'. Valid: parameter-change, treasury-spend, emergency-unlock, text"@)
}

/// The error for an unknown vote.
pub open spec fn invalid_vote_text(s: Seq<char>) -> Seq<char> {
    quoted("Invalid vote '"@, s, "'. Valid: for, against, abstain"@)
}

/// The error for an unknown proposal status.
pub open spec fn invalid_status_text(s: Seq<char>) -> Seq<char> {
    quoted("Invalid status '"@, s, "'. Valid: active, passed, all"@)
}

fn invalid_proposal_type_message(s: &str) -> (r: String)
    ensures
        r@ == invalid_proposal_type_text(s@),
{
    quote("Invalid proposal type '", s, "'. Valid: parameter-change, treasury-spend, emergency-unlock, text")
}

fn invalid_vote_message(s: &str) -> (r: String)
    ensures
        r@ == invalid_vote_text(s@),
{
    quote("Invalid vote '", s, "'. Valid: for, against, abstain")
}

fn invalid_status_message(s: &str) -> (r: String)
    ensures
        r@ == invalid_status_text(s@),
{
    quote("Invalid status '", s, "'. Valid: active, passed, all")
}

impl ProposalType {
    /// Parses `parameter-change`, `treasury-spend`, `emergency-unlock` or `text`; any other
    /// value is an error naming the valid ones.
    pub fn from_str_value(s: &str) -> (r: Result<Self, String>)
        ensures
            proposal_type_named(s@) matches Some(p) ==> r == Ok::<ProposalType, String>(p),
            proposal_type_named(s@) is None ==> (r matches Err(m) && m@ == invalid_proposal_type_text(s@)),
    {
        if same_text(s, "parameter-change") {
            Ok(ProposalType::ParameterChange)
        } else if same_text(s, "treasury-spend") {
            Ok(ProposalType::TreasurySpend)
        } else if same_text(s, "emergency-unlock") {
            Ok(ProposalType::EmergencyUnlock)
        } else if same_text(s, "text") {
            Ok(ProposalType::Text)
        } else {
            Err(invalid_proposal_type_message(s))
        }
    }

    /// The proposal type's command-line name.
    pub fn to_string(&self) -> (r: String)
        ensures
            r@ == proposal_type_name(*self),
    {
        match self {
            ProposalType::ParameterChange => String::from_str("parameter-change"),
            ProposalType::TreasurySpend => String::from_str("treasury-spend"),
            ProposalType::EmergencyUnlock => String::from_str("emergency-unlock"),
            ProposalType::Text => String::from_str("text"),
        }
    }
}

/// A vote on a proposal.
#[derive(Debug, Clone, Copy, PartialEq, Eq, Structural)]
pub enum VoteChoice {
    /// In favour.
    For,
    /// Against.
    Against,
    /// Abstaining.
    Abstain,
}

/// The vote a command-line value names, if any.
pub open spec fn vote_choice_named(s: Seq<char>) -> Option<VoteChoice> {
    if s == "for"@ {
        Some(VoteChoice::For)
    } else if s == "against"@ {
        Some(VoteChoice::Against)
    } else if s == "abstain"@ {
        Some(VoteChoice::Abstain)
    } else {
        None
    }
}

/// The command-line name of a vote.
pub open spec fn vote_choice_name(v: VoteChoice) -> Seq<char> {
    match v {
        VoteChoice::For => "for"@,
        VoteChoice::Against => "against"@,
        VoteChoice::Abstain => "abstain"@,
    }
}

impl VoteChoice {
    /// Parses `for`, `against` or `abstain`; any other value is an error naming the valid
    /// ones.
    pub fn from_str_value(s: &str) -> (r: Result<Self, String>)
        ensures
            vote_choice_named(s@) matches Some(v) ==> r == Ok::<VoteChoice, String>(v),
            vote_choice_named(s@) is None ==> (r matches Err(m) && m@ == invalid_vote_text(s@)),
    {
        if same_text(s, "for") {
            Ok(VoteChoice::For)
        } else if same_text(s, "against") {
            Ok(VoteChoice::Against)
        } else if same_text(s, "abstain") {
            Ok(VoteChoice::Abstain)
        } else {
            Err(invalid_vote_message(s))
        }
    }

    /// The vote's command-line name.
    pub fn to_string(&self) -> (r: String)
        ensures
            r@ == vote_choice_name(*self),
    {
        match self {
            VoteChoice::For => String::from_str("for"),
            VoteChoice::Against => String::from_str("against"),
            VoteChoice::Abstain => String::from_str("abstain"),
        }
    }
}

/// Accepts a valid proposal type.
pub fn is_valid_proposal_type(s: String) -> (r: Result<(), String>)
    ensures
        r is Ok <==> proposal_type_named(s@) is Some,
        r matches Err(m) ==> m@ == invalid_proposal_type_text(s@),
{
    match ProposalType::from_str_value(s.as_str()) {
        Ok(_) => Ok(()),
        Err(e) => Err(e),
    }
}

/// Accepts a valid vote choice.
pub fn is_valid_vote_choice(s: String) -> (r: Result<(), String>)
    ensures
        r is Ok <==> vote_choice_named(s@) is Some,
        r matches Err(m) ==> m@ == invalid_vote_text(s@),
{
    match VoteChoice::from_str_value(s.as_str()) {
        Ok(_) => Ok(()),
        Err(e) => Err(e),
    }
}

/// Accepts `active`, `passed` or `all`.
pub fn is_valid_proposal_status(s: String) -> (r: Result<(), String>)
    ensures
        r is Ok <==> (s@ == "active"@ || s@ == "passed"@ || s@ == "all"@),
        r matches Err(m) ==> m@ == invalid_status_text(s@),
{
    let t = s.as_str();
    if same_text(t, "active") || same_text(t, "passed") || same_text(t, "all") {
        Ok(())
    } else {
        Err(invalid_status_message(t))
    }
}

/// A governance proposal as the command line lists it.
#[derive(Debug, Clone)]
pub struct CliProposal {
    pub id: u64,
    pub proposal_type: String,
    pub title: String,
    pub description: String,
    pub proposer: String,
    pub status: String,
    pub votes_for: u64,
    pub votes_against: u64,
    pub votes_abstain: u64,
    pub created_at: String,
    pub voting_ends: String,
}

/// A list of proposals as the command line prints it.
#[derive(Debug, Clone)]
pub struct CliProposalList {
    pub proposals: Vec<CliProposal>,
}

/// The number of bytes in the UTF-8 encoding of `s`.
pub open spec fn utf8_len(s: Seq<char>) -> int {
    encode_utf8(s).len() as int
}

/// The number of characters of the longest prefix of `s` whose UTF-8 encoding takes at most
/// `limit` bytes: the cut that falls on the last character boundary at or below `limit`.
pub open spec fn fitting_prefix_len(s: Seq<char>, limit: int) -> int {
    choose|k: int|
        0 <= k <= s.len() && utf8_len(#[trigger] s.take(k)) <= limit && (k == s.len() || utf8_len(
            s.take(k + 1),
        ) > limit)
}

/// A title as a proposal list shows it: one whose UTF-8 encoding is longer than 38 bytes is cut
/// at the last character boundary at or below 37 bytes and marked with `...`.
pub open spec fn list_title_spec(title: Seq<char>) -> Seq<char> {
    if utf8_len(title) > 38 {
        title.take(fitting_prefix_len(title, 37)) + "..."@
    } else {
        title
    }
}

/// Encoding a concatenation gives the concatenation of the encodings.
proof fn lemma_encode_utf8_concat(a: Seq<char>, b: Seq<char>)
    ensures
        encode_utf8(a + b) == encode_utf8(a) + encode_utf8(b),
    decreases a.len(),
{
    if a.len() == 0 {
        assert(a + b =~= b);
        assert(encode_utf8(a) + encode_utf8(b) =~= encode_utf8(b));
    } else {
        assert((a + b).drop_first() =~= a.drop_first() + b);
        lemma_encode_utf8_concat(a.drop_first(), b);
        assert(encode_utf8(a + b) =~= encode_utf8(a) + encode_utf8(b));
    }
}

/// One more character adds its own width to the encoded length of a prefix.
proof fn lemma_utf8_len_step(s: Seq<char>, k: int)
    requires
        0 <= k < s.len(),
    ensures
        utf8_len(s.take(k + 1)) == utf8_len(s.take(k)) + encode_scalar(s[k] as u32).len(),
{
    assert(s.take(k + 1) =~= s.take(k) + seq![s[k]]);
    lemma_encode_utf8_concat(s.take(k), seq![s[k]]);
    assert(seq![s[k]].drop_first() =~= Seq::<char>::empty());
    assert(encode_utf8(Seq::<char>::empty()) =~= Seq::<u8>::empty());
    char_is_scalar(s[k]);
    assert(encode_utf8(seq![s[k]]) =~= encode_scalar(s[k] as u32));
}

/// The encoded length of a prefix grows with the prefix.
proof fn lemma_utf8_len_monotonic(s: Seq<char>, i: int, j: int)
    requires
        0 <= i <= j <= s.len(),
    ensures
        utf8_len(s.take(i)) <= utf8_len(s.take(j)),
    decreases j - i,
{
    if i < j {
        lemma_utf8_len_monotonic(s, i, j - 1);
        lemma_utf8_len_step(s, j - 1);
    }
}

/// A prefix length that fits `limit` and that one more character would overflow is the only one.
proof fn lemma_fitting_prefix_len(s: Seq<char>, limit: int, k: int)
    requires
        0 <= k <= s.len(),
        utf8_len(s.take(k)) <= limit,
        k == s.len() || utf8_len(s.take(k + 1)) > limit,
    ensures
        fitting_prefix_len(s, limit) == k,
{
    let c = fitting_prefix_len(s, limit);
    assert(0 <= c <= s.len() && utf8_len(s.take(c)) <= limit && (c == s.len() || utf8_len(
        s.take(c + 1),
    ) > limit));
    if c < k {
        lemma_utf8_len_monotonic(s, c + 1, k);
    } else if k < c {
        lemma_utf8_len_monotonic(s, k + 1, c);
    }
}

/// The number of bytes that UTF-8 takes for `c`.
fn utf8_width(c: char) -> (w: usize)
    ensures
        w == encode_scalar(c as u32).len(),
        1 <= w <= 4,
{
    proof {
        char_is_scalar(c);
    }
    let u: u32 = c as u32;
    if u < 0x80 {
        1
    } else if u < 0x800 {
        2
    } else if u < 0x10000 {
        3
    } else {
        4
    }
}

/// The number of characters of the longest prefix of `t` whose UTF-8 encoding takes at most
/// `limit` bytes.
fn fitting_prefix(t: &str, limit: usize) -> (k: usize)
    requires
        limit <= 64,
    ensures
        k == fitting_prefix_len(t@, limit as int),
        k <= t@.len(),
        utf8_len(t@.take(k as int)) <= limit,
        k == t@.len() || utf8_len(t@.take(k + 1)) > limit,
{
    let n: usize = t.unicode_len();
    let mut k: usize = 0;
    let mut used: usize = 0;
    while k < n
        invariant
            k <= n,
            n == t@.len(),
            limit <= 64,
            used == utf8_len(t@.take(k as int)),
            used <= limit,
        ensures
            k <= n,
            used == utf8_len(t@.take(k as int)),
            k == n || utf8_len(t@.take(k + 1)) > limit,
        decreases n - k,
    {
        let w: usize = utf8_width(t.get_char(k));
        proof {
            lemma_utf8_len_step(t@, k as int);
        }
        if used + w > limit {
            break;
        }
        used = used + w;
        k = k + 1;
    }
    proof {
        lemma_fitting_prefix_len(t@, limit as int, k as int);
    }
    k
}

impl CliProposal {
    /// The title as a proposal list shows it (see [`list_title_spec`]); the cut falls on a
    /// character boundary.
    pub fn list_title(&self) -> (r: String)
        ensures
            r@ == list_title_spec(self.title@),
    {
        let t: &str = self.title.as_str();
        let whole: usize = fitting_prefix(t, 38);
        if whole == t.unicode_len() {
            assert(t@.take(whole as int) =~= t@);
            return self.title.clone();
        }
        proof {
            lemma_utf8_len_monotonic(t@, whole + 1, t@.len() as int);
            assert(t@.take(t@.len() as int) =~= t@);
        }
        let k: usize = fitting_prefix(t, 37);
        let mut r: String = t.substring_char(0, k).to_owned();
        r.append("...");
        assert(t@.subrange(0, k as int) =~= t@.take(k as int));
        r
    }
}

/// A value names a proposal type exactly when it is that type's name: parsing a type's name
/// gives the type back, and every accepted value is a type's name.
pub proof fn law_proposal_type_names_roundtrip(p: ProposalType, s: Seq<char>)
    ensures
        proposal_type_named(proposal_type_name(p)) == Some(p),
        proposal_type_named(s) matches Some(q) ==> s == proposal_type_name(q),
{
    reveal_strlit("parameter-change");
    reveal_strlit("treasury-spend");
    reveal_strlit("emergency-unlock");
    reveal_strlit("text");
    assert("parameter-change"@[0] != "treasury-spend"@[0]);
    assert("parameter-change"@[0] != "emergency-unlock"@[0]);
    assert("parameter-change"@.len() != "text"@.len());
    assert("treasury-spend"@.len() != "emergency-unlock"@.len());
    assert("treasury-spend"@.len() != "text"@.len());
    assert("emergency-unlock"@.len() != "text"@.len());
}

/// A value names a vote exactly when it is that vote's name.
pub proof fn law_vote_choice_names_roundtrip(v: VoteChoice, s: Seq<char>)
    ensures
        vote_choice_named(vote_choice_name(v)) == Some(v),
        vote_choice_named(s) matches Some(w) ==> s == vote_choice_name(w),
{
    reveal_strlit("for");
    reveal_strlit("against");
    reveal_strlit("abstain");
    assert("for"@.len() != "against"@.len());
    assert("for"@.len() != "abstain"@.len());
    assert("against"@[1] != "abstain"@[1]);
}

} // verus!
