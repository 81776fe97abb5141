//! The service's configuration and the policy set that maps a resource key to
//! its budget.

use vstd::prelude::*;
use vstd::utf8::encode_utf8;

verus! {

/// The whole configuration, as loaded at startup.
#[derive(Debug, Clone)]
pub struct Config {
    pub server: ServerConfig,
    pub default_policy: PolicyDefinition,
    pub policies: Vec<PolicyRule>,
}

/// Where the service listens and how it reaches the shared store.
#[derive(Debug, Clone)]
pub struct ServerConfig {
    pub address: String,
    pub redis_url: String,
    pub redis_timeout_ms: u64,
}

/// A budget: at most `max_tokens` tokens in each window of `window_secs`
/// seconds.
#[derive(Debug, Clone, Copy, PartialEq, Eq, Structural)]
pub struct PolicyDefinition {
    pub max_tokens: u32,
    pub window_secs: u64,
}

impl PolicyDefinition {
    /// At least one token per window, and a window of at least one second.
    pub open spec fn wf(&self) -> bool {
        self.max_tokens >= 1 && self.window_secs >= 1
    }
}

/// How a rule's pattern is held against a key.
#[derive(Debug, Clone, Copy, PartialEq, Eq, Structural)]
pub enum PatternType {
    /// The key equals the pattern, byte for byte.
    Exact,
    /// The key starts with the pattern's bytes.
    Prefix,
}

/// A pattern, the budget it selects, and its precedence among matching
/// rules.
#[derive(Debug, Clone)]
pub struct PolicyRule {
    pub pattern: String,
    pub pattern_type: PatternType,
    pub policy: PolicyDefinition,
    pub priority: u32,
}

/// The priority of a rule that names none.
pub fn default_priority() -> (r: u32)
    ensures
        r == 0,
{
    0
}

/// The UTF-8 bytes of a string's characters.
pub open spec fn utf8_bytes(s: Seq<char>) -> Seq<u8> {
    encode_utf8(s)
}

/// `p` is the first `p.len()` bytes of `s`.
pub open spec fn is_prefix_of(p: Seq<u8>, s: Seq<u8>) -> bool {
    p.len() <= s.len() && s.subrange(0, p.len() as int) == p
}

impl PolicyRule {
    /// The rule applies to a key with these bytes.
    pub open spec fn matches(&self, key: Seq<u8>) -> bool {
        match self.pattern_type {
            PatternType::Exact => utf8_bytes(self.pattern@) == key,
            PatternType::Prefix => is_prefix_of(utf8_bytes(self.pattern@), key),
        }
    }
}

/// Among the first `n` rules, rule `i` matches the key, no matching rule has
/// a higher priority, and every matching rule before it has a lower one.
pub open spec fn wins_among(rules: Seq<PolicyRule>, key: Seq<u8>, n: int, i: int) -> bool {
    &&& 0 <= i < n <= rules.len()
    &&& rules[i].matches(key)
    &&& forall|j: int|
        0 <= j < n && #[trigger] rules[j].matches(key) ==> rules[j].priority <= rules[i].priority
    &&& forall|j: int| 0 <= j < i && #[trigger] rules[j].matches(key) ==> rules[j].priority < rules[i].priority
}

/// Rule `i` is the one that decides the key's budget.
pub open spec fn wins(rules: Seq<PolicyRule>, key: Seq<u8>, i: int) -> bool {
    wins_among(rules, key, rules.len() as int, i)
}

/// The rules, in their order of definition, and the budget of keys that no
/// rule matches.
#[derive(Debug, Clone)]
pub struct PolicySet {
    pub default_policy: PolicyDefinition,
    pub policies: Vec<PolicyRule>,
}

impl PolicySet {
    /// Every budget in the set is well formed.
    pub open spec fn wf(&self) -> bool {
        &&& self.default_policy.wf()
        &&& forall|i: int| 0 <= i < self.policies@.len() ==> (#[trigger] self.policies@[i]).policy.wf()
    }

    /// The index of the rule that decides a key, if any rule matches it.
    pub open spec fn winning_rule(&self, key: Seq<u8>) -> Option<int> {
        if exists|i: int| wins(self.policies@, key, i) {
            Some(choose|i: int| wins(self.policies@, key, i))
        } else {
            None
        }
    }

    /// The budget of a key with these bytes.
    pub open spec fn resolved_policy(&self, key: Seq<u8>) -> PolicyDefinition {
        match self.winning_rule(key) {
            Some(i) => self.policies@[i].policy,
            None => self.default_policy,
        }
    }

    /// The set of the given rules and default, or `None` where one of their
    /// budgets has no token or a window shorter than a second.
    pub fn new(default_policy: PolicyDefinition, policies: Vec<PolicyRule>) -> (r: Option<Self>)
        ensures
            r matches Some(s) ==> s.default_policy == default_policy && s.policies@
                == policies@ && s.wf(),
            r is None ==> !(PolicySet { default_policy, policies }).wf(),
    {
        if default_policy.max_tokens < 1 || default_policy.window_secs < 1 {
            return None;
        }
        let mut i: usize = 0;
        while i < policies.len()
            invariant
                i <= policies@.len(),
                forall|j: int| 0 <= j < i ==> (#[trigger] policies@[j]).policy.wf(),
            decreases policies@.len() - i,
        {
            let p = policies[i].policy;
            if p.max_tokens < 1 || p.window_secs < 1 {
                return None;
            }
            i += 1;
        }
        Some(PolicySet { default_policy, policies })
    }

    /// The set that a configuration describes, where its budgets are well
    /// formed.
    pub fn from_config(config: &Config) -> (r: Option<Self>)
        ensures
            r matches Some(s) ==> s.default_policy == config.default_policy && s.policies@
                == config.policies@ && s.wf(),
            r is None ==> !(PolicySet {
                default_policy: config.default_policy,
                policies: config.policies,
            }).wf(),
    {
        let policies = clone_rules(&config.policies);
        PolicySet::new(config.default_policy, policies)
    }

    /// The budget of `key`: the policy of the matching rule with the highest
    /// priority, the first of them on a tie, or the default where no rule
    /// matches.
    pub fn resolve(&self, key: &str) -> (r: PolicyDefinition)
        ensures
            r == self.resolved_policy(utf8_bytes(key@)),
            self.wf() ==> r.wf(),
    {
        let kb = key.as_bytes();
        let ghost k = utf8_bytes(key@);
        let ghost rules = self.policies@;
        let mut best: Option<usize> = None;
        let mut i: usize = 0;
        while i < self.policies.len()
            invariant
                kb@ == k,
                rules == self.policies@,
                i <= rules.len(),
                best matches Some(b) ==> wins_among(rules, k, i as int, b as int),
                best is None ==> forall|j: int| 0 <= j < i ==> !(#[trigger] rules[j]).matches(k),
            decreases rules.len() - i,
        {
            let rule = &self.policies[i];
            if rule_matches(rule, kb) {
                match best {
                    None => {
                        best = Some(i);
                    },
                    Some(b) => {
                        if rule.priority > self.policies[b].priority {
                            best = Some(i);
                        }
                    },
                }
            }
            i += 1;
        }
        match best {
            Some(b) => {
                proof {
                    assert(wins(rules, k, b as int));
                    lemma_winner_unique(rules, k, b as int);
                    let c = choose|i: int| wins(rules, k, i);
                    assert(wins(rules, k, c));
                }
                self.policies[b].policy
            },
            None => {
                assert(!exists|j: int| wins(rules, k, j));
                self.default_policy
            },
        }
    }
}

/// A copy of each rule, in order.
fn clone_rules(rules: &Vec<PolicyRule>) -> (r: Vec<PolicyRule>)
    ensures
        r@ == rules@,
{
    let mut out: Vec<PolicyRule> = Vec::new();
    let mut i: usize = 0;
    while i < rules.len()
        invariant
            i <= rules@.len(),
            out@ == rules@.subrange(0, i as int),
        decreases rules@.len() - i,
    {
        let rule = &rules[i];
        out.push(PolicyRule {
            pattern: rule.pattern.clone(),
            pattern_type: rule.pattern_type,
            policy: rule.policy,
            priority: rule.priority,
        });
        i += 1;
    }
    assert(out@ =~= rules@);
    out
}

/// Whether `s` starts with `p`.
fn bytes_start_with(s: &[u8], p: &[u8]) -> (r: bool)
    ensures
        r == is_prefix_of(p@, s@),
{
    if p.len() > s.len() {
        return false;
    }
    let mut i: usize = 0;
    while i < p.len()
        invariant
            i <= p@.len() <= s@.len(),
            forall|j: int| 0 <= j < i ==> s@[j] == p@[j],
        decreases p@.len() - i,
    {
        if s[i] != p[i] {
            assert(s@.subrange(0, p@.len() as int)[i as int] != p@[i as int]);
            return false;
        }
        i += 1;
    }
    assert(s@.subrange(0, p@.len() as int) =~= p@);
    true
}

/// Whether `rule` applies to the key with bytes `key`.
fn rule_matches(rule: &PolicyRule, key: &[u8]) -> (r: bool)
    ensures
        r == rule.matches(key@),
{
    let pattern = rule.pattern.as_str().as_bytes();
    match rule.pattern_type {
        PatternType::Exact => {
            let r = pattern.len() == key.len() && bytes_start_with(key, pattern);
            proof {
                if pattern@.len() == key@.len() {
                    assert(key@ =~= key@.subrange(0, pattern@.len() as int));
                }
            }
            r
        },
        PatternType::Prefix => bytes_start_with(key, pattern),
    }
}

/// At most one rule decides a key.
pub proof fn lemma_winner_unique(rules: Seq<PolicyRule>, key: Seq<u8>, i: int)
    requires
        wins(rules, key, i),
    ensures
        forall|j: int| #[trigger] wins(rules, key, j) ==> j == i,
{
    assert forall|j: int| #[trigger] wins(rules, key, j) implies j == i by {
        if j < i {
            assert(rules[j].matches(key));
        } else if i < j {
            assert(rules[i].matches(key));
        }
    }
}

/// Where a rule among the first `n` matches, one of them wins among them.
proof fn lemma_winner_exists_among(rules: Seq<PolicyRule>, key: Seq<u8>, n: int, m: int)
    requires
        0 <= m < n <= rules.len(),
        rules[m].matches(key),
    ensures
        exists|i: int| #[trigger] wins_among(rules, key, n, i),
    decreases n,
{
    if m == n - 1 && !exists|j: int| 0 <= j < n - 1 && #[trigger] rules[j].matches(key) {
        assert(wins_among(rules, key, n, n - 1));
    } else {
        let m2 = if m < n - 1 {
            m
        } else {
            choose|j: int| 0 <= j < n - 1 && #[trigger] rules[j].matches(key)
        };
        lemma_winner_exists_among(rules, key, n - 1, m2);
        let b = choose|i: int| #[trigger] wins_among(rules, key, n - 1, i);
        if rules[n - 1].matches(key) && rules[n - 1].priority > rules[b].priority {
            assert(wins_among(rules, key, n, n - 1));
        } else {
            assert(wins_among(rules, key, n, b));
        }
    }
}

/// Resolution is a function of the policy set and the key alone: equal sets
/// and equal keys give equal budgets.
pub proof fn lemma_resolution_deterministic(a: PolicySet, b: PolicySet, ka: Seq<u8>, kb: Seq<u8>)
    requires
        a.default_policy == b.default_policy,
        a.policies@ == b.policies@,
        ka == kb,
    ensures
        a.resolved_policy(ka) == b.resolved_policy(kb),
{
}

/// The matching rule with the highest priority decides, the first of them on
/// a tie; the default is used exactly when no rule matches.
pub proof fn lemma_resolution_rule(s: PolicySet, key: Seq<u8>)
    ensures
        s.winning_rule(key) is None <==> forall|j: int|
            0 <= j < s.policies@.len() ==> !(#[trigger] s.policies@[j]).matches(key),
        s.winning_rule(key) is None ==> s.resolved_policy(key) == s.default_policy,
        s.winning_rule(key) matches Some(i) ==> {
            &&& 0 <= i < s.policies@.len()
            &&& s.policies@[i].matches(key)
            &&& s.resolved_policy(key) == s.policies@[i].policy
            &&& forall|j: int|
                0 <= j < s.policies@.len() && #[trigger] s.policies@[j].matches(key)
                    ==> s.policies@[j].priority <= s.policies@[i].priority
            &&& forall|j: int|
                0 <= j < i && #[trigger] s.policies@[j].matches(key) ==> s.policies@[j].priority
                    < s.policies@[i].priority
        },
{
    let rules = s.policies@;
    if exists|m: int| 0 <= m < rules.len() && #[trigger] rules[m].matches(key) {
        let m = choose|m: int| 0 <= m < rules.len() && #[trigger] rules[m].matches(key);
        lemma_winner_exists_among(rules, key, rules.len() as int, m);
        let i = choose|i: int| #[trigger] wins_among(rules, key, rules.len() as int, i);
        assert(wins(rules, key, i));
    }
    if let Some(i) = s.winning_rule(key) {
        assert(wins(rules, key, i));
    }
}

} // verus!
