//! Command-line arguments and the merger that folds them into one flag per key.
use vstd::prelude::*;

use crate::text::{comma_joined, join_commas, str_eq, views};

verus! {

/// What an argument is: a flag name and the values given to it, in order.
pub struct ArgModel {
    pub key: Seq<char>,
    pub values: Seq<Seq<char>>,
}

/// A command-line flag with its values.
#[derive(Debug, Clone)]
pub struct Arg {
    pub key: String,
    pub values: Vec<String>,
}

impl View for Arg {
    type V = ArgModel;

    open spec fn view(&self) -> ArgModel {
        ArgModel { key: self.key@, values: views(self.values@) }
    }
}

/// The model of each argument of a sequence.
pub open spec fn arg_models(args: Seq<Arg>) -> Seq<ArgModel> {
    args.map_values(|a: Arg| a@)
}

/// The text views of a sequence of string slices.
pub open spec fn str_views(vs: Seq<&str>) -> Seq<Seq<char>> {
    vs.map_values(|s: &str| s@)
}

/// A flag with fixed text, for tables known before the program runs.
#[derive(Debug, Clone, Copy)]
pub struct ArgConst {
    pub key: &'static str,
    pub values: &'static [&'static str],
}

impl View for ArgConst {
    type V = ArgModel;

    open spec fn view(&self) -> ArgModel {
        ArgModel { key: self.key@, values: str_views(self.values@) }
    }
}

impl ArgConst {
    /// A flag without values.
    pub fn key(key: &'static str) -> (r: Self)
        ensures
            r@.key == key@,
            r@.values == Seq::<Seq<char>>::empty(),
    {
        let r = ArgConst { key, values: &[] };
        assert(r@.values =~= Seq::<Seq<char>>::empty());
        r
    }

    /// A flag with the given values.
    pub fn values(key: &'static str, values: &'static [&'static str]) -> (r: Self)
        ensures
            r@.key == key@,
            r@.values == str_views(values@),
    {
        ArgConst { key, values }
    }
}

fn strs_to_strings(vs: &[&str]) -> (r: Vec<String>)
    ensures
        views(r@) == str_views(vs@),
{
    let mut r: Vec<String> = Vec::new();
    let mut i: usize = 0;
    while i < vs.len()
        invariant
            i <= vs@.len(),
            r@.len() == i,
            views(r@) =~= str_views(vs@.subrange(0, i as int)),
        decreases vs@.len() - i,
    {
        let ghost before = r@;
        r.push(String::from_str(vs[i]));
        proof {
            assert(r@[i as int]@ == vs@[i as int]@);
            assert forall|j: int| 0 <= j < i implies r@[j]@ == vs@[j]@ by {
                assert(r@[j] == before[j]);
                assert(views(before)[j] == str_views(vs@.subrange(0, i as int))[j]);
            }
        }
        i = i + 1;
        assert(views(r@) =~= str_views(vs@.subrange(0, i as int)));
    }
    assert(vs@.subrange(0, vs@.len() as int) =~= vs@);
    r
}

impl Arg {
    /// A flag without values, rendered as `--key`.
    pub fn key(key: &str) -> (r: Self)
        ensures
            r@.key == key@,
            r@.values == Seq::<Seq<char>>::empty(),
    {
        let r = Arg { key: String::from_str(key), values: Vec::new() };
        assert(r@.values =~= Seq::<Seq<char>>::empty());
        r
    }

    /// A flag with one value.
    pub fn value(key: &str, value: &str) -> (r: Self)
        ensures
            r@.key == key@,
            r@.values == seq![value@],
    {
        let mut values: Vec<String> = Vec::new();
        values.push(String::from_str(value));
        let r = Arg { key: String::from_str(key), values };
        assert(r@.values =~= seq![value@]);
        r
    }

    /// The owned form of a fixed flag.
    pub fn from_const(arg: ArgConst) -> (r: Self)
        ensures
            r@ == arg@,
    {
        Arg { key: String::from_str(arg.key), values: strs_to_strings(arg.values) }
    }

    /// A flag with the given values, in the given order.
    pub fn values(key: &str, values: Vec<String>) -> (r: Self)
        ensures
            r@.key == key@,
            r@.values == views(values@),
    {
        Arg { key: String::from_str(key), values }
    }
}

/// The index of the entry with key `k`, searching from the end, or -1.
pub open spec fn key_index(m: Seq<ArgModel>, k: Seq<char>) -> int
    decreases m.len(),
{
    if m.len() == 0 {
        -1
    } else if m.last().key == k {
        m.len() - 1
    } else {
        key_index(m.drop_last(), k)
    }
}

/// No two entries share a key.
pub open spec fn keys_unique(m: Seq<ArgModel>) -> bool {
    forall|i: int, j: int| 0 <= i < j < m.len() ==> m[i].key != m[j].key
}

/// Adds one argument: its values go after those of the entry with its key, or
/// it becomes a new entry.
pub open spec fn merge_arg(m: Seq<ArgModel>, a: ArgModel) -> Seq<ArgModel> {
    let i = key_index(m, a.key);
    if i < 0 {
        m.push(a)
    } else {
        m.update(i, ArgModel { key: a.key, values: m[i].values + a.values })
    }
}

/// Adds each argument in turn.
pub open spec fn merge_all(m: Seq<ArgModel>, args: Seq<ArgModel>) -> Seq<ArgModel>
    decreases args.len(),
{
    if args.len() == 0 {
        m
    } else {
        merge_arg(merge_all(m, args.drop_last()), args.last())
    }
}

/// All values given to key `k` by the arguments, in the order given.
pub open spec fn values_for(args: Seq<ArgModel>, k: Seq<char>) -> Seq<Seq<char>>
    decreases args.len(),
{
    if args.len() == 0 {
        Seq::empty()
    } else if args.last().key == k {
        values_for(args.drop_last(), k) + args.last().values
    } else {
        values_for(args.drop_last(), k)
    }
}

/// Some argument has key `k`.
pub open spec fn has_key(args: Seq<ArgModel>, k: Seq<char>) -> bool {
    exists|i: int| 0 <= i < args.len() && args[i].key == k
}

/// The command-line token of one entry: `--key`, or `--key=v1,v2,...`.
pub open spec fn render_arg(a: ArgModel) -> Seq<char> {
    if a.values.len() == 0 {
        seq!['-', '-'] + a.key
    } else {
        seq!['-', '-'] + a.key + seq!['='] + comma_joined(a.values)
    }
}

/// The command-line tokens of all entries.
pub open spec fn rendered(m: Seq<ArgModel>) -> Seq<Seq<char>> {
    m.map_values(|a: ArgModel| render_arg(a))
}

/// `key_index` finds an entry with the key exactly when one exists, and with
/// unique keys it is the only one.
pub proof fn lemma_key_index(m: Seq<ArgModel>, k: Seq<char>)
    ensures
        -1 <= key_index(m, k) < m.len(),
        key_index(m, k) >= 0 ==> m[key_index(m, k)].key == k,
        key_index(m, k) == -1 <==> !has_key(m, k),
        keys_unique(m) ==> forall|i: int| 0 <= i < m.len() && m[i].key == k ==> i == key_index(m, k),
    decreases m.len(),
{
    if m.len() > 0 {
        lemma_key_index(m.drop_last(), k);
        if m.last().key != k {
            if has_key(m, k) {
                let i = choose|i: int| 0 <= i < m.len() && m[i].key == k;
                assert(m.drop_last()[i].key == k);
            }
            if has_key(m.drop_last(), k) {
                let i = choose|i: int| 0 <= i < m.len() - 1 && m.drop_last()[i].key == k;
                assert(m[i].key == k);
            }
            if keys_unique(m) {
                assert(keys_unique(m.drop_last()));
                assert forall|i: int| 0 <= i < m.len() && m[i].key == k implies i == key_index(
                    m,
                    k,
                ) by {
                    assert(m.drop_last()[i].key == k);
                }
            }
        } else {
            assert(has_key(m, k)) by {
                assert(m[m.len() - 1].key == k);
            }
        }
    }
}

/// Arguments that never name a key give it no values.
pub proof fn lemma_values_for_absent(args: Seq<ArgModel>, k: Seq<char>)
    requires
        !has_key(args, k),
    ensures
        values_for(args, k) == Seq::<Seq<char>>::empty(),
    decreases args.len(),
{
    if args.len() > 0 {
        assert(args[args.len() - 1].key != k);
        assert(!has_key(args.drop_last(), k)) by {
            if has_key(args.drop_last(), k) {
                let i = choose|i: int| 0 <= i < args.len() - 1 && args.drop_last()[i].key == k;
                assert(args[i].key == k);
            }
        }
        lemma_values_for_absent(args.drop_last(), k);
    }
}

/// Adding an argument keeps keys unique.
pub proof fn lemma_merge_arg_unique(m: Seq<ArgModel>, a: ArgModel)
    requires
        keys_unique(m),
    ensures
        keys_unique(merge_arg(m, a)),
{
    lemma_key_index(m, a.key);
}

/// An entry for `k` exists after merging exactly when some argument has key
/// `k`, and it holds all their values in the order given.
pub proof fn lemma_merge_all_values(args: Seq<ArgModel>, k: Seq<char>)
    ensures
        keys_unique(merge_all(Seq::empty(), args)),
        key_index(merge_all(Seq::empty(), args), k) >= 0 <==> has_key(args, k),
        key_index(merge_all(Seq::empty(), args), k) >= 0 ==> merge_all(Seq::empty(), args)[key_index(
            merge_all(Seq::empty(), args),
            k,
        )].values == values_for(args, k),
    decreases args.len(),
{
    let m = merge_all(Seq::empty(), args);
    if args.len() == 0 {
        lemma_key_index(m, k);
    } else {
        let pre = args.drop_last();
        let a = args.last();
        let mp = merge_all(Seq::empty(), pre);
        lemma_merge_all_values(pre, k);
        lemma_merge_arg_unique(mp, a);
        lemma_key_index(mp, k);
        lemma_key_index(mp, a.key);
        lemma_key_index(m, k);
        assert(m == merge_arg(mp, a));
        if has_key(args, k) && !has_key(pre, k) {
            assert(a.key == k) by {
                let i = choose|i: int| 0 <= i < args.len() && args[i].key == k;
                if i < args.len() - 1 {
                    assert(pre[i].key == k);
                }
            }
        }
        if has_key(pre, k) {
            let i = choose|i: int| 0 <= i < pre.len() && pre[i].key == k;
            assert(args[i].key == k);
        }
        if a.key == k {
            assert(args[args.len() - 1].key == k);
            if key_index(mp, k) < 0 {
                assert(m[m.len() - 1].key == k);
                lemma_values_for_absent(pre, k);
                assert(values_for(args, k) =~= a.values);
            } else {
                let j = key_index(mp, k);
                assert(m[j].key == k);
            }
        } else {
            if key_index(mp, k) >= 0 {
                let j = key_index(mp, k);
                assert(m[j] == mp[j]);
                assert(m[j].key == k);
                assert(has_key(m, k));
            } else {
                if has_key(m, k) {
                    let i = choose|i: int| 0 <= i < m.len() && m[i].key == k;
                    if i < mp.len() {
                        assert(mp[i].key == k);
                    }
                }
            }
        }
    }
}

/// The values a key gets from a concatenation are those of the first part,
/// then those of the second.
pub proof fn lemma_values_for_concat(a: Seq<ArgModel>, b: Seq<ArgModel>, k: Seq<char>)
    ensures
        values_for(a + b, k) == values_for(a, k) + values_for(b, k),
    decreases b.len(),
{
    if b.len() == 0 {
        assert(a + b =~= a);
        assert(values_for(a, k) + values_for(b, k) =~= values_for(a, k));
    } else {
        assert((a + b).drop_last() =~= a + b.drop_last());
        lemma_values_for_concat(a, b.drop_last(), k);
        assert(values_for(a, k) + values_for(b.drop_last(), k) + b.last().values =~= values_for(a, k)
            + (values_for(b.drop_last(), k) + b.last().values));
    }
}

/// A key occurs in a concatenation exactly when it occurs in one of the parts.
pub proof fn lemma_has_key_concat(a: Seq<ArgModel>, b: Seq<ArgModel>, k: Seq<char>)
    ensures
        has_key(a + b, k) <==> has_key(a, k) || has_key(b, k),
{
    if has_key(a + b, k) {
        let i = choose|i: int| 0 <= i < (a + b).len() && (a + b)[i].key == k;
        if i < a.len() {
            assert(a[i].key == k);
        } else {
            assert(b[i - a.len()].key == k);
        }
    }
    if has_key(a, k) {
        let i = choose|i: int| 0 <= i < a.len() && a[i].key == k;
        assert((a + b)[i].key == k);
    }
    if has_key(b, k) {
        let i = choose|i: int| 0 <= i < b.len() && b[i].key == k;
        assert((a + b)[a.len() + i].key == k);
    }
}

/// Merging two sequences one after the other is merging their concatenation.
pub proof fn lemma_merge_all_concat(m: Seq<ArgModel>, a: Seq<ArgModel>, b: Seq<ArgModel>)
    ensures
        merge_all(merge_all(m, a), b) == merge_all(m, a + b),
    decreases b.len(),
{
    if b.len() == 0 {
        assert(a + b =~= a);
    } else {
        assert((a + b).drop_last() =~= a + b.drop_last());
        lemma_merge_all_concat(m, a, b.drop_last());
    }
}

/// Merging the defaults and then the overrides: a key that both give ends up
/// in a single entry whose values are the defaults' values followed by the
/// overrides' values; an override adds to the defaults and never replaces
/// them.
pub proof fn law_override_appends(defaults: Seq<ArgModel>, overrides: Seq<ArgModel>, k: Seq<char>)
    requires
        has_key(defaults, k),
        has_key(overrides, k),
    ensures
        ({
            let m = merge_all(merge_all(Seq::empty(), defaults), overrides);
            let i = key_index(m, k);
            &&& 0 <= i < m.len()
            &&& forall|j: int| 0 <= j < m.len() && m[j].key == k ==> j == i
            &&& m[i].values == values_for(defaults, k) + values_for(overrides, k)
            &&& rendered(m)[i] == render_arg(
                ArgModel { key: k, values: values_for(defaults, k) + values_for(overrides, k) },
            )
        }),
{
    let all = defaults + overrides;
    lemma_merge_all_concat(Seq::empty(), defaults, overrides);
    assert(has_key(all, k)) by {
        let j = choose|j: int| 0 <= j < defaults.len() && defaults[j].key == k;
        assert(all[j].key == k);
    }
    lemma_merge_all_values(all, k);
    lemma_values_for_concat(defaults, overrides, k);
    let m = merge_all(Seq::empty(), all);
    lemma_key_index(m, k);
}

/// Merged arguments, one entry per key, kept in order of first appearance.
pub struct ArgsBuilder {
    pub entries: Vec<Arg>,
}

impl View for ArgsBuilder {
    type V = Seq<ArgModel>;

    open spec fn view(&self) -> Seq<ArgModel> {
        arg_models(self.entries@)
    }
}

impl ArgsBuilder {
    /// At most one entry per key.
    pub open spec fn wf(&self) -> bool {
        keys_unique(self@)
    }

    /// An empty set of arguments.
    pub fn new() -> (r: Self)
        ensures
            r@ == Seq::<ArgModel>::empty(),
            r.wf(),
    {
        let r = ArgsBuilder { entries: Vec::new() };
        assert(r@ =~= Seq::<ArgModel>::empty());
        r
    }

    fn position(&self, key: &str) -> (r: Option<usize>)
        ensures
            match r {
                Some(i) => i as int == key_index(self@, key@) && i < self@.len(),
                None => key_index(self@, key@) == -1,
            },
    {
        let mut i: usize = self.entries.len();
        assert(self@.subrange(0, i as int) =~= self@);
        while i > 0
            invariant
                i <= self.entries@.len(),
                key_index(self@, key@) == key_index(self@.subrange(0, i as int), key@),
            decreases i,
        {
            let ghost sub = self@.subrange(0, i as int);
            assert(sub.last() == self@[i - 1]);
            assert(sub.drop_last() =~= self@.subrange(0, i - 1));
            if str_eq(self.entries[i - 1].key.as_str(), key) {
                return Some(i - 1);
            }
            i = i - 1;
        }
        None
    }

    /// Whether some entry has this key.
    pub fn has(&self, key: &str) -> (r: bool)
        ensures
            r == has_key(self@, key@),
    {
        proof {
            lemma_key_index(self@, key@);
        }
        self.position(key).is_some()
    }

    /// Adds an argument: its values are appended to those of the entry with the
    /// same key, which keeps its place, or it becomes a new last entry.
    pub fn arg(&mut self, arg: Arg)
        requires
            old(self).wf(),
        ensures
            final(self).wf(),
            final(self)@ == merge_arg(old(self)@, arg@),
    {
        proof {
            lemma_merge_arg_unique(self@, arg@);
        }
        let ghost m = self@;
        let mut arg = arg;
        match self.position(arg.key.as_str()) {
            Some(i) => {
                let ghost old_entries = self.entries@;
                let ghost arg_model = arg@;
                let mut entry = self.entries.remove(i);
                let ghost old_values = entry.values@;
                let ghost added = arg.values@;
                entry.values.append(&mut arg.values);
                entry.key = arg.key;
                assert(views(entry.values@) =~= views(old_values) + views(added));
                self.entries.insert(i, entry);
                proof {
                    assert(self.entries@ =~= old_entries.update(i as int, entry));
                    assert(m[i as int] == old_entries[i as int]@);
                    assert(entry@ == ArgModel {
                        key: arg_model.key,
                        values: m[i as int].values + arg_model.values,
                    });
                    assert(self@ =~= merge_arg(m, arg_model));
                }
            },
            None => {
                self.entries.push(arg);
                assert(self@ =~= merge_arg(m, arg@));
            },
        }
    }

    /// Adds each argument in turn, as `arg` does.
    pub fn args(&mut self, args: Vec<Arg>)
        requires
            old(self).wf(),
        ensures
            final(self).wf(),
            final(self)@ == merge_all(old(self)@, arg_models(args@)),
    {
        let ghost start = self@;
        let ghost all = arg_models(args@);
        let mut args = args;
        let ghost mut k: int = 0;
        while args.len() > 0
            invariant
                self.wf(),
                0 <= k,
                k + args@.len() == all.len(),
                arg_models(args@) == all.subrange(k as int, all.len() as int),
                self@ == merge_all(start, all.subrange(0, k as int)),
            decreases args@.len(),
        {
            let ghost before = args@;
            let a = args.remove(0);
            proof {
                assert(arg_models(before)[0] == a@);
                assert(a@ == all[k as int]);
                assert(all.subrange(0, k + 1).drop_last() =~= all.subrange(0, k as int));
                assert forall|j: int| 0 <= j < args@.len() implies arg_models(args@)[j] == all[k
                    + 1 + j] by {
                    assert(args@[j] == before[j + 1]);
                    assert(arg_models(before)[j + 1] == all.subrange(k, all.len() as int)[j + 1]);
                }
                assert(arg_models(args@) =~= all.subrange(k + 1, all.len() as int));
            }
            self.arg(a);
            proof {
                k = k + 1;
            }
        }
        assert(all.subrange(0, all.len() as int) =~= all);
    }

    /// The command-line tokens, one per entry.
    pub fn into_iter(self) -> (r: Vec<String>)
        ensures
            views(r@) == rendered(self@),
    {
        let mut r: Vec<String> = Vec::new();
        let mut i: usize = 0;
        while i < self.entries.len()
            invariant
                i <= self.entries@.len(),
                r@.len() == i,
                views(r@) =~= rendered(self@.subrange(0, i as int)),
            decreases self.entries@.len() - i,
        {
            let ghost before = r@;
            r.push(render(&self.entries[i]));
            proof {
                assert forall|j: int| 0 <= j < i implies r@[j]@ == render_arg(self@[j]) by {
                    assert(r@[j] == before[j]);
                    assert(views(before)[j] == rendered(self@.subrange(0, i as int))[j]);
                }
            }
            i = i + 1;
            assert(views(r@) =~= rendered(self@.subrange(0, i as int)));
        }
        assert(self@.subrange(0, self@.len() as int) =~= self@);
        r
    }
}

/// The command-line token of one argument.
pub fn render(a: &Arg) -> (r: String)
    ensures
        r@ == render_arg(a@),
{
    proof {
        reveal_strlit("--");
        reveal_strlit("=");
    }
    let mut r = String::from_str("--");
    r.append(a.key.as_str());
    if a.values.len() > 0 {
        r.append("=");
        let joined = join_commas(&a.values);
        r.append(joined.as_str());
    }
    assert(r@ =~= render_arg(a@));
    r
}

} // verus!
