//! The policy store: subject / object-pattern / action-pattern rules and the
//! allow/deny query over them.
//!
//! A rule grants access when its subject equals the caller's subject exactly,
//! its object pattern matches the requested path under hierarchical path
//! matching (segments split on `/`; a literal segment must match exactly and
//! the designated wildcard segment `*` matches any single segment), and its
//! action pattern, read as a regular expression, matches the request method in
//! full. Regular-expression matching is done by the `regex` crate; the pattern
//! is wrapped so that it must cover the whole method string.

use vstd::prelude::*;
use vstd::seq_lib::*;
use vstd::string::StringExecFns;

use crate::errors::Error;
use crate::text::{chars_of, seg_eq, str_eq};

verus! {

// ---------------------------------------------------------------------------
// Hierarchical path matching.
// ---------------------------------------------------------------------------
/// The segments of `s`, split on `/`. Splitting the empty sequence yields one
/// empty segment, as `str::split` does.
pub open spec fn seg_split(s: Seq<char>) -> Seq<Seq<char>>
    decreases s.len(),
{
    if s.len() == 0 {
        seq![Seq::<char>::empty()]
    } else if s[0] == '/' {
        seq![Seq::<char>::empty()] + seg_split(s.drop_first())
    } else {
        let rest = seg_split(s.drop_first());
        seq![seq![s[0]] + rest[0]] + rest.drop_first()
    }
}

pub proof fn lemma_seg_split_nonempty(s: Seq<char>)
    ensures
        seg_split(s).len() >= 1,
    decreases s.len(),
{
    if s.len() != 0 {
        lemma_seg_split_nonempty(s.drop_first());
    }
}

/// The designated wildcard segment: it matches any single path segment.
pub open spec fn wildcard() -> Seq<char> {
    seq!['*']
}

/// Hierarchical path matching: the pattern and the path split into the same
/// number of segments, and each pattern segment is either the wildcard or
/// equal to the corresponding path segment.
pub open spec fn spec_path_match(pattern: Seq<char>, obj: Seq<char>) -> bool {
    let ps = seg_split(pattern);
    let os = seg_split(obj);
    &&& ps.len() == os.len()
    &&& forall|k: int| 0 <= k < ps.len() ==> #[trigger] ps[k] == os[k] || ps[k] == wildcard()
}

/// Splits a character sequence into its `/`-separated segments.
fn split_segments(v: &Vec<char>) -> (r: Vec<Vec<char>>)
    ensures
        r.deep_view() == seg_split(v@),
{
    let n = v.len();
    let mut done: Vec<Vec<char>> = Vec::new();
    let mut cur: Vec<char> = Vec::new();
    proof {
        let ss = seg_split(v@);
        lemma_seg_split_nonempty(v@);
        assert(v@.subrange(0, n as int) =~= v@);
        assert(cur@ + ss[0] =~= ss[0]);
        assert(seq![cur@ + ss[0]] + ss.drop_first() =~= ss);
        assert(done.deep_view() + prepend_first(cur@, ss) =~~= ss);
    }
    for i in 0..n
        invariant
            n == v@.len(),
            seg_split(v@) == done.deep_view() + prepend_first(
                cur@,
                seg_split(v@.subrange(i as int, n as int)),
            ),
    {
        let ghost tail = v@.subrange(i as int, n as int);
        let ghost tail2 = v@.subrange(i + 1 as int, n as int);
        proof {
            assert(tail.len() > 0);
            assert(tail[0] == v@[i as int]);
            assert(tail.drop_first() =~= tail2);
            lemma_seg_split_nonempty(tail2);
        }
        let ghost rest = seg_split(tail2);
        let ghost done_old = done.deep_view();
        let ghost cur_old = cur@;
        if v[i] == '/' {
            let finished = cur;
            cur = Vec::new();
            done.push(finished);
            proof {
                assert(seg_split(tail) == seq![Seq::<char>::empty()] + rest);
                assert(done.deep_view() =~~= done_old.push(cur_old));
                assert((seq![Seq::<char>::empty()] + rest).drop_first() =~= rest);
                assert(cur_old + (seq![Seq::<char>::empty()] + rest)[0] =~= cur_old);
                assert(prepend_first(cur_old, seg_split(tail)) =~= seq![cur_old] + rest);
                assert(cur@ + rest[0] =~= rest[0]);
                assert(prepend_first(cur@, rest) =~= rest);
                assert(done_old.push(cur_old) + rest =~= done_old + (seq![cur_old] + rest));
                assert(done.deep_view() + prepend_first(cur@, rest) =~= done_old + prepend_first(
                    cur_old,
                    seg_split(tail),
                ));
            }
        } else {
            cur.push(v[i]);
            proof {
                assert(seg_split(tail) == seq![seq![tail[0]] + rest[0]] + rest.drop_first());
                assert(cur@ =~= cur_old.push(tail[0]));
                let ss = seg_split(tail);
                assert(ss[0] == seq![tail[0]] + rest[0]);
                assert(ss.drop_first() =~= rest.drop_first());
                assert(cur_old + ss[0] =~= cur@ + rest[0]);
                assert(prepend_first(cur_old, ss) =~= prepend_first(cur@, rest));
            }
        }
    }
    proof {
        let tail = v@.subrange(n as int, n as int);
        assert(tail =~= Seq::<char>::empty());
        assert(seg_split(tail) == seq![Seq::<char>::empty()]);
        assert(cur@ + seg_split(tail)[0] =~= cur@);
        assert(prepend_first(cur@, seg_split(tail)) =~= seq![cur@]);
    }
    let ghost done_old = done.deep_view();
    let ghost cur_old = cur@;
    done.push(cur);
    proof {
        assert(done.deep_view() =~~= done_old.push(cur_old));
        assert(done_old + seq![cur_old] =~= done_old.push(cur_old));
    }
    done
}

/// `segments` with its first segment extended by `prefix` at the front.
pub open spec fn prepend_first(prefix: Seq<char>, segments: Seq<Seq<char>>) -> Seq<Seq<char>>
    recommends
        segments.len() >= 1,
{
    seq![prefix + segments[0]] + segments.drop_first()
}

/// Hierarchical path matching of a path against an object pattern.
pub fn path_match(pattern: &str, obj: &str) -> (r: bool)
    ensures
        r == spec_path_match(pattern@, obj@),
{
    let pv = chars_of(pattern);
    let ov = chars_of(obj);
    let ps = split_segments(&pv);
    let os = split_segments(&ov);
    if ps.len() != os.len() {
        return false;
    }
    let mut star: Vec<char> = Vec::new();
    star.push('*');
    proof {
        assert(star@ =~= wildcard());
    }
    let n = ps.len();
    for k in 0..n
        invariant
            n == ps.deep_view().len() == os.deep_view().len(),
            ps.deep_view() == seg_split(pattern@),
            os.deep_view() == seg_split(obj@),
            star@ == wildcard(),
            forall|j: int|
                0 <= j < k ==> #[trigger] ps.deep_view()[j] == os.deep_view()[j]
                    || ps.deep_view()[j] == wildcard(),
    {
        proof {
            assert(ps.deep_view()[k as int] =~= ps@[k as int].deep_view());
            assert(ps@[k as int].deep_view() =~= ps@[k as int]@);
            assert(os.deep_view()[k as int] =~= os@[k as int].deep_view());
            assert(os@[k as int].deep_view() =~= os@[k as int]@);
        }
        if !seg_eq(&ps[k], &star) && !seg_eq(&ps[k], &os[k]) {
            return false;
        }
    }
    true
}

// ---------------------------------------------------------------------------
// Action matching by regular expression.
// ---------------------------------------------------------------------------
/// Whether the `regex` crate accepts `pattern` as a valid regular expression.
/// Depends on the pattern alone.
pub uninterp spec fn re_valid(pattern: Seq<char>) -> bool;

/// Whether the regular expression `pattern` matches somewhere inside `s`, as
/// `regex::Regex::is_match` reports. Depends on the two strings alone.
pub uninterp spec fn re_match(pattern: Seq<char>, s: Seq<char>) -> bool;

/// `pattern` wrapped so that, as a regular expression, it must cover the
/// whole string it is matched against.
pub open spec fn anchored_spec(pattern: Seq<char>) -> Seq<char> {
    "^(?:"@ + pattern + ")$"@
}

/// Compiles the pattern and reports whether it matches inside `s`.
///
/// Relies on `regex::Regex::new`, which fails exactly on invalid patterns,
/// and `regex::Regex::is_match`, which reports whether the expression matches
/// anywhere in its argument; both depend only on the strings given.
#[verifier::external_body]
fn regex_match(pattern: &str, s: &str) -> (r: Option<bool>)
    ensures
        r is Some <==> re_valid(pattern@),
        r matches Some(b) ==> b == re_match(pattern@, s@),
{
    match regex::Regex::new(pattern) {
        Ok(re) => Some(re.is_match(s)),
        Err(_) => None,
    }
}

/// Full-string action matching: the anchored pattern is valid and matches the
/// action. An action pattern that is not a valid regular expression matches
/// nothing.
pub open spec fn spec_action_match(pattern: Seq<char>, act: Seq<char>) -> bool {
    re_valid(anchored_spec(pattern)) && re_match(anchored_spec(pattern), act)
}

/// Matches the request method against a rule's action pattern, read as a
/// regular expression that must cover the whole method.
pub fn action_match(pattern: &str, act: &str) -> (r: bool)
    ensures
        r == spec_action_match(pattern@, act@),
{
    let mut anchored = String::from_str("^(?:");
    anchored.append(pattern);
    anchored.append(")$");
    proof {
        assert(anchored@ =~= anchored_spec(pattern@));
    }
    match regex_match(anchored.as_str(), act) {
        Some(b) => b,
        None => false,
    }
}

// ---------------------------------------------------------------------------
// Rules and the store.
// ---------------------------------------------------------------------------
/// One stored policy rule: a policy type tag and the
/// (subject, object-pattern, action-pattern) triple.
#[derive(Debug)]
pub struct Rule {
    pub ptype: String,
    pub subject: String,
    pub object: String,
    pub action: String,
}

/// The mathematical content of a rule.
pub ghost struct RuleView {
    pub ptype: Seq<char>,
    pub subject: Seq<char>,
    pub object: Seq<char>,
    pub action: Seq<char>,
}

impl View for Rule {
    type V = RuleView;

    open spec fn view(&self) -> RuleView {
        RuleView {
            ptype: self.ptype@,
            subject: self.subject@,
            object: self.object@,
            action: self.action@,
        }
    }
}

impl DeepView for Rule {
    type V = RuleView;

    open spec fn deep_view(&self) -> RuleView {
        self@
    }
}

impl Clone for Rule {
    fn clone(&self) -> (r: Self)
        ensures
            r@ == self@,
    {
        Rule {
            ptype: self.ptype.clone(),
            subject: self.subject.clone(),
            object: self.object.clone(),
            action: self.action.clone(),
        }
    }
}

/// Whether two rules hold the same four fields.
pub fn rule_eq(a: &Rule, b: &Rule) -> (r: bool)
    ensures
        r == (a@ == b@),
{
    str_eq(a.ptype.as_str(), b.ptype.as_str()) && str_eq(a.subject.as_str(), b.subject.as_str())
        && str_eq(a.object.as_str(), b.object.as_str()) && str_eq(
        a.action.as_str(),
        b.action.as_str(),
    )
}

/// Whether one stored rule grants the (subject, object, action) request.
pub open spec fn rule_matches(r: RuleView, sub: Seq<char>, obj: Seq<char>, act: Seq<char>) -> bool {
    &&& r.subject == sub
    &&& spec_path_match(r.object, obj)
    &&& spec_action_match(r.action, act)
}

/// Whether some rule of `rules` grants the (subject, object, action) request.
pub open spec fn spec_check(
    rules: Seq<RuleView>,
    sub: Seq<char>,
    obj: Seq<char>,
    act: Seq<char>,
) -> bool {
    exists|i: int| 0 <= i < rules.len() && rule_matches(#[trigger] rules[i], sub, obj, act)
}

/// `rules` without every rule equal to `target`.
pub open spec fn remove_exact(rules: Seq<RuleView>, target: RuleView) -> Seq<RuleView> {
    rules.filter(|rv: RuleView| rv != target)
}

pub proof fn lemma_remove_exact_step(s: Seq<RuleView>, x: RuleView, target: RuleView)
    ensures
        remove_exact(s.push(x), target) == if x != target {
            remove_exact(s, target).push(x)
        } else {
            remove_exact(s, target)
        },
{
    reveal(Seq::filter);
    assert(s.push(x).drop_last() =~= s);
}

/// The rule created alongside a new identity: it grants the identity every
/// method on its own resource subtree.
pub open spec fn grant_rule(username: Seq<char>) -> RuleView {
    RuleView {
        ptype: "p"@,
        subject: username,
        object: "/api/users/"@ + username,
        action: "(GET)|(POST)|(PUT)|(DELETE)"@,
    }
}

/// The policy store: the set of stored rules, queried on every protected
/// request and mutated together with the identities the rules protect.
pub struct PolicyStore {
    pub rules: Vec<Rule>,
}

impl View for PolicyStore {
    type V = Seq<RuleView>;

    open spec fn view(&self) -> Seq<RuleView> {
        self.rules.deep_view()
    }
}

impl PolicyStore {
    /// An empty store: no rule, so every check is denied.
    pub fn new() -> (r: PolicyStore)
        ensures
            r@ == Seq::<RuleView>::empty(),
    {
        let r = PolicyStore { rules: Vec::new() };
        proof {
            assert(r@ =~= Seq::<RuleView>::empty());
        }
        r
    }

    /// Allow/deny query: true exactly when some stored rule's subject equals
    /// `sub`, its object pattern matches `obj` under hierarchical path
    /// matching, and its action pattern matches `act` in full as a regular
    /// expression. In particular every query over an empty store is denied.
    pub fn check(&self, sub: &str, obj: &str, act: &str) -> (r: bool)
        ensures
            r == spec_check(self@, sub@, obj@, act@),
    {
        let n = self.rules.len();
        for i in 0..n
            invariant
                n == self@.len(),
                forall|j: int| 0 <= j < i ==> !rule_matches(#[trigger] self@[j], sub@, obj@, act@),
        {
            let rule = &self.rules[i];
            if str_eq(rule.subject.as_str(), sub) && path_match(rule.object.as_str(), obj)
                && action_match(rule.action.as_str(), act) {
                proof {
                    assert(self@[i as int] == self.rules@[i as int]@);
                    assert(rule_matches(self@[i as int], sub@, obj@, act@));
                }
                return true;
            }
        }
        false
    }

    /// Whether the exact rule is already stored.
    pub fn contains_rule(&self, rule: &Rule) -> (r: bool)
        ensures
            r == self@.contains(rule@),
    {
        let n = self.rules.len();
        for i in 0..n
            invariant
                n == self@.len(),
                forall|j: int| 0 <= j < i ==> #[trigger] self@[j] != rule@,
        {
            if rule_eq(&self.rules[i], rule) {
                proof {
                    assert(self@[i as int] == rule@);
                }
                return true;
            }
        }
        false
    }

    /// Inserts a rule built from a policy type and exactly three fields
    /// (subject, object pattern, action pattern). Inserting a rule that is
    /// already stored leaves the store unchanged and is not an error; any
    /// other field count is rejected and changes nothing.
    pub fn add_rule(&mut self, ptype: &str, params: Vec<String>) -> (r: Result<(), Error>)
        ensures
            params@.len() == 3 ==> r is Ok,
            params@.len() != 3 ==> (r matches Err(e) && e is Validation && final(self)@ == old(self)@),
            r is Ok ==> ({
                let added = RuleView {
                    ptype: ptype@,
                    subject: params@[0]@,
                    object: params@[1]@,
                    action: params@[2]@,
                };
                final(self)@ == if old(self)@.contains(added) {
                    old(self)@
                } else {
                    old(self)@.push(added)
                }
            }),
    {
        if params.len() != 3 {
            return Err(Error::Validation(String::from_str("a policy rule takes three fields")));
        }
        let rule = Rule {
            ptype: String::from_str(ptype),
            subject: params[0].clone(),
            object: params[1].clone(),
            action: params[2].clone(),
        };
        if self.contains_rule(&rule) {
            return Ok(());
        }
        self.rules.push(rule);
        proof {
            assert(self@ =~= old(self)@.push(
                RuleView {
                    ptype: ptype@,
                    subject: params@[0]@,
                    object: params@[1]@,
                    action: params@[2]@,
                },
            ));
        }
        Ok(())
    }

    /// Removes the rule with exactly these fields, if stored; removing an
    /// absent rule is not an error.
    pub fn remove_rule(&mut self, ptype: &str, params: Vec<String>) -> (r: Result<(), Error>)
        ensures
            params@.len() == 3 ==> r is Ok,
            params@.len() != 3 ==> (r matches Err(e) && e is Validation && final(self)@ == old(
                self,
            )@),
            r is Ok ==> final(self)@ == remove_exact(
                old(self)@,
                RuleView {
                    ptype: ptype@,
                    subject: params@[0]@,
                    object: params@[1]@,
                    action: params@[2]@,
                },
            ),
    {
        if params.len() != 3 {
            return Err(Error::Validation(String::from_str("a policy rule takes three fields")));
        }
        let target = Rule {
            ptype: String::from_str(ptype),
            subject: params[0].clone(),
            object: params[1].clone(),
            action: params[2].clone(),
        };
        let ghost removed = target@;
        let n = self.rules.len();
        let mut kept: Vec<Rule> = Vec::new();
        proof {
            assert(self@.subrange(0, 0) =~= Seq::<RuleView>::empty());
            reveal(Seq::filter);
            assert(kept.deep_view() =~= remove_exact(self@.subrange(0, 0), removed));
        }
        for i in 0..n
            invariant
                n == self@.len(),
                self@ == old(self)@,
                removed == (RuleView {
                    ptype: ptype@,
                    subject: params@[0]@,
                    object: params@[1]@,
                    action: params@[2]@,
                }),
                target@ == removed,
                kept.deep_view() == remove_exact(self@.subrange(0, i as int), removed),
        {
            let ghost prefix = self@.subrange(0, i as int);
            proof {
                assert(self@.subrange(0, i + 1 as int) =~= prefix.push(self@[i as int]));
                lemma_remove_exact_step(prefix, self@[i as int], removed);
            }
            proof {
                assert(self@[i as int] == self.rules@[i as int]@);
            }
            if !rule_eq(&self.rules[i], &target) {
                let ghost kept_old = kept.deep_view();
                kept.push(self.rules[i].clone());
                proof {
                    assert(self@[i as int] != removed);
                    assert(kept.deep_view() =~= kept_old.push(self@[i as int]));
                }
            } else {
                proof {
                    assert(self@[i as int] == removed);
                }
            }
        }
        proof {
            assert(self@.subrange(0, n as int) =~= self@);
        }
        self.rules = kept;
        Ok(())
    }
}

} // verus!
