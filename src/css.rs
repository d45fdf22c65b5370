//! Scoped stylesheet compilation: property lists grouped by selector suffix,
//! compiled under a random class identifier into a stylesheet registry.

use rand::Rng;
use vstd::prelude::*;
use crate::entries::{
    entries_view, has_key, lemma_upserted_entries, lemma_upserted_lookup, lemma_upserted_unique, lookup,
    unique_keys, upsert_entry, upserted,
};

verus! {

/// One declaration line: `key: value;` and a line break.
pub open spec fn declaration(key: Seq<char>, value: Seq<char>) -> Seq<char> {
    key + ": "@ + value + ";\n"@
}

/// The declarations of a property list, in order.
pub open spec fn rule_body(props: Seq<(Seq<char>, Seq<char>)>) -> Seq<char>
    decreases props.len(),
{
    if props.len() == 0 {
        Seq::empty()
    } else {
        rule_body(props.drop_last()) + declaration(props.last().0, props.last().1)
    }
}

/// A property list after each pair of `pairs` was added in turn.
pub open spec fn upsert_all(props: Seq<(Seq<char>, Seq<char>)>, pairs: Seq<(Seq<char>, Seq<char>)>) -> Seq<(Seq<char>, Seq<char>)>
    decreases pairs.len(),
{
    if pairs.len() == 0 {
        props
    } else {
        upserted(upsert_all(props, pairs.drop_last()), pairs.last().0, pairs.last().1)
    }
}

/// A registry partition after each rule group of `groups` was compiled under
/// `id`: the group with suffix `s` is stored under `id + s`.
pub open spec fn compiled_rules(
    reg: Seq<(Seq<char>, Seq<char>)>,
    id: Seq<char>,
    groups: Seq<(Seq<char>, Seq<(Seq<char>, Seq<char>)>)>,
) -> Seq<(Seq<char>, Seq<char>)>
    decreases groups.len(),
{
    if groups.len() == 0 {
        reg
    } else {
        upserted(
            compiled_rules(reg, id, groups.drop_last()),
            id + groups.last().0,
            rule_body(groups.last().1),
        )
    }
}

pub open spec fn is_lower_letter(c: char) -> bool {
    'a' <= c && c <= 'z'
}

/// Eight lowercase letters.
pub open spec fn is_identifier(s: Seq<char>) -> bool {
    s.len() == 8 && forall|i: int| 0 <= i < s.len() ==> is_lower_letter(#[trigger] s[i])
}

/// A flat list of CSS properties; a key added again takes the new value.
#[derive(Clone)]
pub struct State {
    pub properties: Vec<(String, String)>,
}

impl View for State {
    type V = Seq<(Seq<char>, Seq<char>)>;

    open spec fn view(&self) -> Seq<(Seq<char>, Seq<char>)> {
        entries_view(self.properties@)
    }
}

impl State {
    /// Each property name stands once.
    pub open spec fn wf(&self) -> bool {
        unique_keys(self@)
    }

    pub fn new() -> (r: State)
        ensures
            r@ == Seq::<(Seq<char>, Seq<char>)>::empty(),
            r.wf(),
    {
        State { properties: Vec::new() }
    }

    /// Sets `key` to `value`, replacing an earlier value of `key`.
    pub fn add_property(&mut self, key: &str, value: &str)
        ensures
            final(self)@ == upserted(old(self)@, key@, value@),
            old(self).wf() ==> final(self).wf(),
    {
        proof {
            if self.wf() {
                lemma_upserted_unique(self@, key@, value@);
            }
        }
        upsert_entry(&mut self.properties, key.to_string(), value.to_string());
    }

    /// Adds each pair in turn, as `add_property` does.
    pub fn bulk(&mut self, properties: &[(String, String)])
        ensures
            final(self)@ == upsert_all(old(self)@, entries_view(properties@)),
            old(self).wf() ==> final(self).wf(),
    {
        let ghost pairs = entries_view(properties@);
        let mut i: usize = 0;
        while i < properties.len()
            invariant
                i <= properties.len(),
                pairs == entries_view(properties@),
                self@ == upsert_all(old(self)@, pairs.take(i as int)),
                old(self).wf() ==> self.wf(),
            decreases properties.len() - i,
        {
            let (key, value) = &properties[i];
            self.add_property(key.as_str(), value.as_str());
            assert(pairs.take(i + 1).drop_last() =~= pairs.take(i as int));
            i = i + 1;
        }
        assert(pairs.take(i as int) =~= pairs);
    }

    /// The declarations of this list as CSS text.
    pub fn declarations(&self) -> (r: String)
        ensures
            r@ == rule_body(self@),
    {
        let ghost props = self@;
        let mut body = String::new();
        let mut i: usize = 0;
        while i < self.properties.len()
            invariant
                i <= self.properties.len(),
                props == self@,
                body@ == rule_body(props.take(i as int)),
            decreases self.properties.len() - i,
        {
            let (key, value) = &self.properties[i];
            body.append(key.as_str());
            body.append(": ");
            body.append(value.as_str());
            body.append(";\n");
            assert(props.take(i + 1).drop_last() =~= props.take(i as int));
            i = i + 1;
        }
        assert(props.take(i as int) =~= props);
        body
    }
}

/// The rules compiled so far: base rules, and rules for narrow screens.
pub struct StyleRegistry {
    pub rules: Vec<(String, String)>,
    pub mobile_rules: Vec<(String, String)>,
}

impl StyleRegistry {
    pub open spec fn rules_view(&self) -> Seq<(Seq<char>, Seq<char>)> {
        entries_view(self.rules@)
    }

    pub open spec fn mobile_view(&self) -> Seq<(Seq<char>, Seq<char>)> {
        entries_view(self.mobile_rules@)
    }

    /// Each key stands once in each partition.
    pub open spec fn wf(&self) -> bool {
        unique_keys(self.rules_view()) && unique_keys(self.mobile_view())
    }

    pub fn new() -> (r: StyleRegistry)
        ensures
            r.rules_view() == Seq::<(Seq<char>, Seq<char>)>::empty(),
            r.mobile_view() == Seq::<(Seq<char>, Seq<char>)>::empty(),
            r.wf(),
    {
        let r = StyleRegistry { rules: Vec::new(), mobile_rules: Vec::new() };
        assert(r.rules_view() =~= Seq::<(Seq<char>, Seq<char>)>::empty());
        assert(r.mobile_view() =~= Seq::<(Seq<char>, Seq<char>)>::empty());
        r
    }
}

/// One rule: the class selector `.key`, then the body in braces.
pub open spec fn rule_text(key: Seq<char>, body: Seq<char>) -> Seq<char> {
    "."@ + key + " { "@ + body + " }"@
}

/// The rules of a partition, one per line.
pub open spec fn rules_text(rules: Seq<(Seq<char>, Seq<char>)>) -> Seq<char>
    decreases rules.len(),
{
    if rules.len() == 0 {
        Seq::empty()
    } else if rules.len() == 1 {
        rule_text(rules[0].0, rules[0].1)
    } else {
        rules_text(rules.drop_last()) + "\n"@ + rule_text(rules.last().0, rules.last().1)
    }
}

/// The whole stylesheet: the base rules, then the narrow-screen rules inside
/// one media query.
pub open spec fn stylesheet_text(rules: Seq<(Seq<char>, Seq<char>)>, mobile: Seq<(Seq<char>, Seq<char>)>) -> Seq<char> {
    rules_text(rules) + "\n"@ + "@media screen and (max-width: 768px) { "@ + rules_text(mobile) + " }"@
}

/// Renders one partition of rules.
fn render_rules(rules: &Vec<(String, String)>) -> (r: String)
    ensures
        r@ == rules_text(entries_view(rules@)),
{
    let ghost rs = entries_view(rules@);
    let mut text = String::new();
    let mut i: usize = 0;
    while i < rules.len()
        invariant
            i <= rules.len(),
            rs == entries_view(rules@),
            text@ == rules_text(rs.take(i as int)),
        decreases rules.len() - i,
    {
        let (key, body) = &rules[i];
        if i > 0 {
            text.append("\n");
        }
        text.append(".");
        text.append(key.as_str());
        text.append(" { ");
        text.append(body.as_str());
        text.append(" }");
        assert(rs.take(i + 1).drop_last() =~= rs.take(i as int));
        proof {
            if i == 0 {
                assert(text@ =~= rules_text(rs.take(1)));
            } else {
                assert(text@ =~= rules_text(rs.take(i + 1)));
            }
        }
        i = i + 1;
    }
    assert(rs.take(i as int) =~= rs);
    text
}

impl StyleRegistry {
    /// The stylesheet text of every rule compiled so far.
    pub fn stylesheet(&self) -> (r: String)
        ensures
            r@ == stylesheet_text(self.rules_view(), self.mobile_view()),
    {
        let mut text = render_rules(&self.rules);
        text.append("\n");
        text.append("@media screen and (max-width: 768px) { ");
        let mobile = render_rules(&self.mobile_rules);
        text.append(mobile.as_str());
        text.append(" }");
        text
    }
}

/// Stores the base rule body `css` under `id`, replacing an earlier body.
pub fn add_css(registry: &mut StyleRegistry, id: String, css: String)
    ensures
        final(registry).rules_view() == upserted(old(registry).rules_view(), id@, css@),
        final(registry).mobile_rules == old(registry).mobile_rules,
        old(registry).wf() ==> final(registry).wf(),
{
    proof {
        if registry.wf() {
            lemma_upserted_unique(registry.rules_view(), id@, css@);
        }
    }
    upsert_entry(&mut registry.rules, id, css);
}

/// Stores the narrow-screen rule body `css` under `id`, replacing an earlier body.
pub fn add_mobile_css(registry: &mut StyleRegistry, id: String, css: String)
    ensures
        final(registry).mobile_view() == upserted(old(registry).mobile_view(), id@, css@),
        final(registry).rules == old(registry).rules,
        old(registry).wf() ==> final(registry).wf(),
{
    proof {
        if registry.wf() {
            lemma_upserted_unique(registry.mobile_view(), id@, css@);
        }
    }
    upsert_entry(&mut registry.mobile_rules, id, css);
}

/// Relies on rand's `Rng::gen_range` on the thread-local generator: a number
/// drawn from `0..bound`, which panics only on an empty range.
#[verifier::external_body]
fn random_below(bound: usize) -> (r: usize)
    requires
        bound > 0,
    ensures
        r < bound,
{
    rand::thread_rng().gen_range(0..bound)
}

/// The style rules of one element: rule groups keyed by selector suffix (the
/// empty suffix is the base rule), for all screens and for narrow ones, and
/// the class name they are compiled under.
#[derive(Clone)]
pub struct CSS {
    pub identifier: String,
    pub states: Vec<(String, State)>,
    pub mobile_states: Vec<(String, State)>,
}

/// The letter at position `k` of the alphabet.
pub open spec fn letter_of(k: nat) -> char {
    "abcdefghijklmnopqrstuvwxyz"@[k as int]
}

/// Each suffix stands once, and each property list has distinct names.
pub open spec fn groups_wf(g: Seq<(Seq<char>, Seq<(Seq<char>, Seq<char>)>)>) -> bool {
    &&& unique_keys(g)
    &&& forall|i: int| 0 <= i < g.len() ==> unique_keys(#[trigger] g[i].1)
}

/// The letters that a run of draws below 26 picks.
pub fn identifier_from(draws: &Vec<usize>) -> (r: String)
    requires
        forall|i: int| 0 <= i < draws@.len() ==> draws@[i] < 26,
    ensures
        r@ == draws@.map_values(|k: usize| letter_of(k as nat)),
        forall|i: int| 0 <= i < r@.len() ==> is_lower_letter(#[trigger] r@[i]),
{
    let letters = "abcdefghijklmnopqrstuvwxyz";
    proof {
        reveal_strlit("abcdefghijklmnopqrstuvwxyz");
    }
    let ghost picked = draws@.map_values(|k: usize| letter_of(k as nat));
    let mut identifier = String::new();
    let mut n: usize = 0;
    while n < draws.len()
        invariant
            n <= draws@.len(),
            forall|i: int| 0 <= i < draws@.len() ==> draws@[i] < 26,
            picked == draws@.map_values(|k: usize| letter_of(k as nat)),
            identifier@ == picked.take(n as int),
            letters@ == "abcdefghijklmnopqrstuvwxyz"@,
            letters@.len() == 26,
        decreases draws@.len() - n,
    {
        let k = draws[n];
        let letter = letters.substring_char(k, k + 1);
        identifier.append(letter);
        assert(identifier@ =~= picked.take(n + 1));
        n = n + 1;
    }
    assert(picked.take(n as int) =~= picked);
    assert forall|i: int| 0 <= i < identifier@.len() implies is_lower_letter(#[trigger] identifier@[i]) by {
        assert(draws@[i] < 26);
    }
    identifier
}

impl CSS {
    /// The class name under which the rules are compiled.
    pub open spec fn ident(&self) -> Seq<char> {
        self.identifier@
    }

    pub open spec fn groups(&self) -> Seq<(Seq<char>, Seq<(Seq<char>, Seq<char>)>)> {
        entries_view(self.states@)
    }

    pub open spec fn mobile_groups(&self) -> Seq<(Seq<char>, Seq<(Seq<char>, Seq<char>)>)> {
        entries_view(self.mobile_states@)
    }

    /// Each suffix stands once in each partition, and each rule group has
    /// distinct property names.
    pub open spec fn wf(&self) -> bool {
        groups_wf(self.groups()) && groups_wf(self.mobile_groups())
    }

    /// A fresh value with a random identifier and no rules.
    pub fn new() -> (r: CSS)
        ensures
            is_identifier(r.ident()),
            r.groups() == Seq::<(Seq<char>, Seq<(Seq<char>, Seq<char>)>)>::empty(),
            r.mobile_groups() == Seq::<(Seq<char>, Seq<(Seq<char>, Seq<char>)>)>::empty(),
            r.wf(),
    {
        let r = CSS { identifier: CSS::generate_identifier(), states: Vec::new(), mobile_states: Vec::new() };
        assert(r.groups() =~= Seq::<(Seq<char>, Seq<(Seq<char>, Seq<char>)>)>::empty());
        assert(r.mobile_groups() =~= Seq::<(Seq<char>, Seq<(Seq<char>, Seq<char>)>)>::empty());
        r
    }

    /// Sets the rule group for `state` (none: the base rule).
    pub fn add_state(&mut self, state: Option<&str>, properties: State)
        ensures
            final(self).groups() == upserted(old(self).groups(), suffix_of(state), properties@),
            final(self).mobile_groups() == old(self).mobile_groups(),
            final(self).ident() == old(self).ident(),
            old(self).wf() && properties.wf() ==> final(self).wf(),
    {
        let key = match state {
            Some(s) => s.to_string(),
            None => String::new(),
        };
        proof {
            if self.wf() && properties.wf() {
                lemma_groups_wf_upserted(self.groups(), suffix_of(state), properties@);
            }
        }
        upsert_entry(&mut self.states, key, properties);
    }

    /// Sets the narrow-screen rule group for `state` (none: the base rule).
    pub fn add_mobile(&mut self, state: Option<&str>, properties: State)
        ensures
            final(self).mobile_groups() == upserted(old(self).mobile_groups(), suffix_of(state), properties@),
            final(self).groups() == old(self).groups(),
            final(self).ident() == old(self).ident(),
            old(self).wf() && properties.wf() ==> final(self).wf(),
    {
        let key = match state {
            Some(s) => s.to_string(),
            None => String::new(),
        };
        proof {
            if self.wf() && properties.wf() {
                lemma_groups_wf_upserted(self.mobile_groups(), suffix_of(state), properties@);
            }
        }
        upsert_entry(&mut self.mobile_states, key, properties);
    }

    /// Compiles every rule group into `registry` under the identifier followed
    /// by the group's suffix, and hands back the identifier. With distinct
    /// suffixes, each group is then found under its own key.
    pub fn generate(self, registry: &mut StyleRegistry) -> (id: String)
        ensures
            id@ == self.ident(),
            final(registry).rules_view() == compiled_rules(old(registry).rules_view(), self.ident(), self.groups()),
            final(registry).mobile_view() == compiled_rules(old(registry).mobile_view(), self.ident(), self.mobile_groups()),
            old(registry).wf() ==> final(registry).wf(),
            self.wf() ==> forall|k: int| 0 <= k < self.groups().len() ==>
                lookup(final(registry).rules_view(), self.ident() + #[trigger] self.groups()[k].0)
                    == Some(rule_body(self.groups()[k].1)),
            self.wf() ==> forall|k: int| 0 <= k < self.mobile_groups().len() ==>
                lookup(final(registry).mobile_view(), self.ident() + #[trigger] self.mobile_groups()[k].0)
                    == Some(rule_body(self.mobile_groups()[k].1)),
    {
        compile_groups(registry, &self.identifier, &self.states, false);
        compile_groups(registry, &self.identifier, &self.mobile_states, true);
        proof {
            if self.wf() {
                assert forall|k: int| 0 <= k < self.groups().len() implies
                    lookup(registry.rules_view(), self.ident() + #[trigger] self.groups()[k].0)
                        == Some(rule_body(self.groups()[k].1)) by {
                    lemma_compiled_lookup(old(registry).rules_view(), self.ident(), self.groups(), k);
                }
                assert forall|k: int| 0 <= k < self.mobile_groups().len() implies
                    lookup(registry.mobile_view(), self.ident() + #[trigger] self.mobile_groups()[k].0)
                        == Some(rule_body(self.mobile_groups()[k].1)) by {
                    lemma_compiled_lookup(old(registry).mobile_view(), self.ident(), self.mobile_groups(), k);
                }
            }
        }
        self.identifier
    }

    /// Eight letters, each drawn uniformly from the alphabet.
    fn generate_identifier() -> (r: String)
        ensures
            is_identifier(r@),
    {
        let mut draws: Vec<usize> = Vec::new();
        while draws.len() < 8
            invariant
                draws@.len() <= 8,
                forall|i: int| 0 <= i < draws@.len() ==> draws@[i] < 26,
            decreases 8 - draws@.len(),
        {
            draws.push(random_below(26));
        }
        identifier_from(&draws)
    }
}

/// A group list stays well formed when a well-formed group is set.
proof fn lemma_groups_wf_upserted(
    g: Seq<(Seq<char>, Seq<(Seq<char>, Seq<char>)>)>,
    k: Seq<char>,
    v: Seq<(Seq<char>, Seq<char>)>,
)
    requires
        groups_wf(g),
        unique_keys(v),
    ensures
        groups_wf(upserted(g, k, v)),
{
    lemma_upserted_unique(g, k, v);
    lemma_upserted_entries(g, k, v);
    let t = upserted(g, k, v);
    assert forall|i: int| 0 <= i < t.len() implies unique_keys(#[trigger] t[i].1) by {
        if t[i] != (k, v) {
            assert(t[i] == g[i]);
        }
    }
}

/// The suffix under which a rule group is kept: the selector, or empty.
pub open spec fn suffix_of(state: Option<&str>) -> Seq<char> {
    match state {
        Some(s) => s@,
        None => Seq::empty(),
    }
}

/// After compiling, each rule group with its own suffix is found under the
/// identifier followed by that suffix, with the declarations of its
/// properties as body.
pub proof fn lemma_compiled_lookup(
    reg: Seq<(Seq<char>, Seq<char>)>,
    id: Seq<char>,
    groups: Seq<(Seq<char>, Seq<(Seq<char>, Seq<char>)>)>,
    k: int,
)
    requires
        unique_keys(groups),
        0 <= k < groups.len(),
    ensures
        lookup(compiled_rules(reg, id, groups), id + groups[k].0) == Some(rule_body(groups[k].1)),
    decreases groups.len(),
{
    let last = groups.last();
    let q = id + groups[k].0;
    lemma_upserted_lookup(compiled_rules(reg, id, groups.drop_last()), id + last.0, rule_body(last.1), q);
    if k < groups.len() - 1 {
        assert(groups[k].0 != last.0);
        if q == id + last.0 {
            assert(groups[k].0 =~= q.subrange(id.len() as int, q.len() as int));
            assert(last.0 =~= (id + last.0).subrange(id.len() as int, q.len() as int));
        }
        assert(unique_keys(groups.drop_last()));
        lemma_compiled_lookup(reg, id, groups.drop_last(), k);
        assert(groups.drop_last()[k] == groups[k]);
    }
}

/// The registry only grows: a key that was there before compiling is still
/// there after.
pub proof fn lemma_compiled_keeps_keys(
    reg: Seq<(Seq<char>, Seq<char>)>,
    id: Seq<char>,
    groups: Seq<(Seq<char>, Seq<(Seq<char>, Seq<char>)>)>,
    key: Seq<char>,
)
    requires
        has_key(reg, key),
    ensures
        has_key(compiled_rules(reg, id, groups), key),
    decreases groups.len(),
{
    if groups.len() > 0 {
        let before = compiled_rules(reg, id, groups.drop_last());
        lemma_compiled_keeps_keys(reg, id, groups.drop_last(), key);
        let i = choose|i: int| 0 <= i < before.len() && before[i].0 == key;
        let after = compiled_rules(reg, id, groups);
        assert(after[i].0 == key);
    }
}

/// Compiles `groups` under `id` into one partition of `registry`.
fn compile_groups(registry: &mut StyleRegistry, id: &String, groups: &Vec<(String, State)>, mobile: bool)
    ensures
        mobile ==> final(registry).mobile_view() == compiled_rules(old(registry).mobile_view(), id@, entries_view(groups@)),
        mobile ==> final(registry).rules == old(registry).rules,
        !mobile ==> final(registry).rules_view() == compiled_rules(old(registry).rules_view(), id@, entries_view(groups@)),
        !mobile ==> final(registry).mobile_rules == old(registry).mobile_rules,
        old(registry).wf() ==> final(registry).wf(),
{
    let ghost gs = entries_view(groups@);
    let mut i: usize = 0;
    while i < groups.len()
        invariant
            i <= groups.len(),
            gs == entries_view(groups@),
            mobile ==> registry.mobile_view() == compiled_rules(old(registry).mobile_view(), id@, gs.take(i as int)),
            mobile ==> registry.rules == old(registry).rules,
            !mobile ==> registry.rules_view() == compiled_rules(old(registry).rules_view(), id@, gs.take(i as int)),
            !mobile ==> registry.mobile_rules == old(registry).mobile_rules,
            old(registry).wf() ==> registry.wf(),
        decreases groups.len() - i,
    {
        let (suffix, state) = &groups[i];
        let mut key = id.clone();
        key.append(suffix.as_str());
        let body = state.declarations();
        assert(gs.take(i + 1).drop_last() =~= gs.take(i as int));
        if mobile {
            add_mobile_css(registry, key, body);
        } else {
            add_css(registry, key, body);
        }
        i = i + 1;
    }
    assert(gs.take(i as int) =~= gs);
}

} // verus!
