//! Pipeline variables.

use vstd::prelude::*;
use crate::text::{clone_opt_string, opt_text, str_eq};

verus! {

/// How the pipeline variable is available.
#[derive(Debug, Clone, Copy, PartialEq, Eq, Structural)]
pub enum PipelineVariableType {
    /// The value is placed as contents within a file.
    ///
    /// The environment variable contains the path to the file.
    File,
    /// The environment variable contains the contents of the variable.
    String,
}

impl PipelineVariableType {
    /// The canonical name of the value.
    pub open spec fn spec_name(self) -> Seq<char> {
        match self {
            PipelineVariableType::File => "file"@,
            PipelineVariableType::String => "string"@,
        }
    }

    /// The value with a given canonical name, if there is one.
    pub open spec fn spec_from_name(name: Seq<char>) -> Option<PipelineVariableType> {
        if name == "file"@ {
            Some(PipelineVariableType::File)
        } else if name == "string"@ {
            Some(PipelineVariableType::String)
        } else {
            None
        }
    }

    /// The canonical name of the value.
    pub fn name(self) -> (r: &'static str)
        ensures
            r@ == self.spec_name(),
    {
        match self {
            PipelineVariableType::File => "file",
            PipelineVariableType::String => "string",
        }
    }

    /// The value named by `name`.
    pub fn from_name(name: &str) -> (r: Option<PipelineVariableType>)
        ensures
            r == Self::spec_from_name(name@),
    {
        if str_eq(name, "file") {
            Some(PipelineVariableType::File)
        } else if str_eq(name, "string") {
            Some(PipelineVariableType::String)
        } else {
            None
        }
    }
}

/// Every value is found again by its canonical name.
pub proof fn lemma_pipeline_variable_type_name_round_trip(value: PipelineVariableType)
    ensures
        PipelineVariableType::spec_from_name(value.spec_name()) == Some(value),
{
    reveal_strlit("file");
    reveal_strlit("string");
    assert("file"@.len() == 4);
    assert("string"@.len() == 6);
}

/// A pipeline variable value.
#[derive(Debug)]
pub struct PipelineVariable {
    /// The value of the pipeline variable.
    pub value: String,
    /// How the pipeline variable is made available to jobs.
    pub type_: PipelineVariableType,
    /// Whether the variable is protected or not.
    pub protected: bool,
    /// The environment the variable is made available to.
    pub environment: Option<String>,
}

/// What a [`PipelineVariable`] says.
pub struct PipelineVariableView {
    pub value: Seq<char>,
    pub type_: PipelineVariableType,
    pub protected: bool,
    pub environment: Option<Seq<char>>,
}

impl View for PipelineVariable {
    type V = PipelineVariableView;

    open spec fn view(&self) -> PipelineVariableView {
        PipelineVariableView {
            value: self.value@,
            type_: self.type_,
            protected: self.protected,
            environment: opt_text(self.environment),
        }
    }
}

impl Clone for PipelineVariable {
    fn clone(&self) -> (r: Self)
        ensures
            r@ == self@,
    {
        PipelineVariable {
            value: self.value.clone(),
            type_: self.type_,
            protected: self.protected,
            environment: clone_opt_string(&self.environment),
        }
    }
}

/// Why a [`PipelineVariable`] could not be built.
#[derive(Debug)]
pub enum PipelineVariableBuilderError {
    /// A required field was never set.
    UninitializedField(&'static str),
    /// The fields that were set do not make a valid value.
    ValidationError(String),
}

/// Collects the fields of a [`PipelineVariable`].
#[derive(Debug)]
pub struct PipelineVariableBuilder {
    pub value: Option<String>,
    pub type_: Option<PipelineVariableType>,
    pub protected: Option<bool>,
    pub environment: Option<Option<String>>,
}

impl PipelineVariable {
    /// Create a builder for the structure.
    pub fn builder() -> (r: PipelineVariableBuilder)
        ensures
            r == PipelineVariableBuilder::empty(),
    {
        PipelineVariableBuilder {
            value: None,
            type_: None,
            protected: None,
            environment: None,
        }
    }
}

impl PipelineVariableBuilder {
    /// The builder with no field set.
    pub open spec fn empty() -> PipelineVariableBuilder {
        PipelineVariableBuilder {
            value: None,
            type_: None,
            protected: None,
            environment: None,
        }
    }

    /// The first required field, in declaration order, that is not set.
    pub open spec fn missing(self) -> Option<Seq<char>> {
        if self.value is None {
            Some("value"@)
        } else if self.type_ is None {
            Some("type_"@)
        } else {
            None
        }
    }

    /// What the builder makes once every required field is set.
    pub open spec fn record(self) -> PipelineVariableView {
        PipelineVariableView {
            value: self.value.unwrap()@,
            type_: self.type_.unwrap(),
            protected: match self.protected {
                Some(v) => v,
                None => false,
            },
            environment: match self.environment {
                Some(v) => opt_text(v),
                None => None,
            },
        }
    }

    /// The value of the pipeline variable.
    pub fn value(self, value: &str) -> (r: Self)
        ensures
            r.value is Some,
            r.value.unwrap()@ == value@,
            r == (PipelineVariableBuilder { value: r.value, ..self }),
    {
        PipelineVariableBuilder { value: Some(value.to_owned()), ..self }
    }

    /// How the pipeline variable is made available to jobs.
    pub fn type_(self, value: PipelineVariableType) -> (r: Self)
        ensures
            r == (PipelineVariableBuilder { type_: Some(value), ..self }),
    {
        PipelineVariableBuilder { type_: Some(value), ..self }
    }

    /// Whether the variable is protected or not.
    pub fn protected(self, value: bool) -> (r: Self)
        ensures
            r == (PipelineVariableBuilder { protected: Some(value), ..self }),
    {
        PipelineVariableBuilder { protected: Some(value), ..self }
    }

    /// The environment the variable is made available to.
    pub fn environment(self, value: Option<String>) -> (r: Self)
        ensures
            r == (PipelineVariableBuilder { environment: Some(value), ..self }),
    {
        PipelineVariableBuilder { environment: Some(value), ..self }
    }

    /// Build the pipeline variable, or name the first required field that is missing.
    pub fn build(self) -> (r: Result<PipelineVariable, PipelineVariableBuilderError>)
        ensures
            match r {
                Ok(v) => self.missing() is None && v@ == self.record(),
                Err(e) => e matches PipelineVariableBuilderError::UninitializedField(f)
                    && self.missing() == Some(f@),
            },
    {
        let value = match self.value {
            Some(v) => v,
            None => return Err(PipelineVariableBuilderError::UninitializedField("value")),
        };
        let type_ = match self.type_ {
            Some(v) => v,
            None => return Err(PipelineVariableBuilderError::UninitializedField("type_")),
        };
        let protected = match self.protected {
            Some(v) => v,
            None => false,
        };
        let environment = match self.environment {
            Some(v) => v,
            None => None,
        };
        Ok(PipelineVariable {
            value,
            type_,
            protected,
            environment,
        })
    }
}

/// A set of pipeline variables: at most one variable for each key.
#[derive(Debug)]
pub struct PipelineVariables {
    entries: Vec<(String, PipelineVariable)>,
}

/// What a set of pipeline variables says: its keys with their variables, in
/// the order in which the keys were first added.
pub struct PipelineVariablesView {
    pub entries: Seq<(Seq<char>, PipelineVariableView)>,
}

impl PipelineVariablesView {
    /// The set without variables.
    pub open spec fn empty() -> PipelineVariablesView {
        PipelineVariablesView { entries: Seq::empty() }
    }

    /// No key occurs twice.
    pub open spec fn keys_unique(self) -> bool {
        forall|i: int, j: int|
            #![trigger self.entries[i], self.entries[j]]
            0 <= i < j < self.entries.len() ==> self.entries[i].0 != self.entries[j].0
    }

    /// Whether some variable has the key `key`.
    pub open spec fn contains_key(self, key: Seq<char>) -> bool {
        exists|i: int| 0 <= i < self.entries.len() && self.entries[i].0 == key
    }

    /// A position at which `key` stands.
    pub open spec fn position(self, key: Seq<char>) -> int {
        choose|i: int| 0 <= i < self.entries.len() && self.entries[i].0 == key
    }

    /// The variable with the key `key`.
    pub open spec fn get(self, key: Seq<char>) -> Option<PipelineVariableView> {
        if self.contains_key(key) {
            Some(self.entries[self.position(key)].1)
        } else {
            None
        }
    }

    /// The set with `key` bound to `value`: in place where the key is
    /// present, at the end where it is not.
    pub open spec fn insert(
        self,
        key: Seq<char>,
        value: PipelineVariableView,
    ) -> PipelineVariablesView {
        if self.contains_key(key) {
            PipelineVariablesView { entries: self.entries.update(self.position(key), (key, value)) }
        } else {
            PipelineVariablesView { entries: self.entries.push((key, value)) }
        }
    }

    /// The set that holds `pairs`, added from first to last.
    pub open spec fn collect(pairs: Seq<(Seq<char>, PipelineVariableView)>) -> PipelineVariablesView
        decreases pairs.len(),
    {
        if pairs.len() == 0 {
            Self::empty()
        } else {
            Self::collect(pairs.drop_last()).insert(pairs.last().0, pairs.last().1)
        }
    }
}

/// Binding a key keeps the keys distinct.
pub proof fn lemma_insert_keeps_keys_unique(
    vars: PipelineVariablesView,
    key: Seq<char>,
    value: PipelineVariableView,
)
    requires
        vars.keys_unique(),
    ensures
        vars.insert(key, value).keys_unique(),
        vars.insert(key, value).get(key) == Some(value),
{
    let after = vars.insert(key, value);
    if vars.contains_key(key) {
        let p = vars.position(key);
        assert(after.entries[p].0 == key);
        assert(after.contains_key(key));
        let q = after.position(key);
        if q != p {
            assert(vars.entries[q].0 == key);
        }
    } else {
        let p = vars.entries.len() as int;
        assert(after.entries[p].0 == key);
        assert(after.contains_key(key));
        let q = after.position(key);
        if q != p {
            assert(vars.entries[q].0 == key);
        }
    }
}

/// Collecting pairs yields distinct keys.
pub proof fn lemma_collect_keys_unique(pairs: Seq<(Seq<char>, PipelineVariableView)>)
    ensures
        PipelineVariablesView::collect(pairs).keys_unique(),
    decreases pairs.len(),
{
    if pairs.len() > 0 {
        lemma_collect_keys_unique(pairs.drop_last());
        lemma_insert_keeps_keys_unique(
            PipelineVariablesView::collect(pairs.drop_last()),
            pairs.last().0,
            pairs.last().1,
        );
    }
}

/// Collecting pairs whose keys are distinct yields the pairs as they are.
pub proof fn lemma_collect_distinct(pairs: Seq<(Seq<char>, PipelineVariableView)>)
    requires
        (PipelineVariablesView { entries: pairs }).keys_unique(),
    ensures
        PipelineVariablesView::collect(pairs) == (PipelineVariablesView { entries: pairs }),
    decreases pairs.len(),
{
    let whole = PipelineVariablesView { entries: pairs };
    assert(forall|i: int, j: int|
        #![trigger pairs[i], pairs[j]]
        0 <= i < j < pairs.len() ==> whole.entries[i].0 != whole.entries[j].0);
    if pairs.len() == 0 {
        assert(pairs =~= Seq::empty());
    } else {
        let front = pairs.drop_last();
        assert((PipelineVariablesView { entries: front }).keys_unique()) by {
            assert forall|i: int, j: int| 0 <= i < j < front.len() implies front[i].0
                != front[j].0 by {
                assert(pairs[i].0 != pairs[j].0);
            }
        }
        lemma_collect_distinct(front);
        let before = PipelineVariablesView { entries: front };
        let key = pairs.last().0;
        if before.contains_key(key) {
            let i = choose|i: int| 0 <= i < front.len() && front[i].0 == key;
            assert(pairs[i].0 != pairs[pairs.len() - 1].0);
        }
        assert(front.push(pairs.last()) =~= pairs);
    }
}

/// What a list of keyed variables says.
pub open spec fn pairs_view(
    pairs: Seq<(String, PipelineVariable)>,
) -> Seq<(Seq<char>, PipelineVariableView)> {
    Seq::new(pairs.len(), |i: int| (pairs[i].0@, pairs[i].1@))
}

impl View for PipelineVariables {
    type V = PipelineVariablesView;

    closed spec fn view(&self) -> PipelineVariablesView {
        PipelineVariablesView::collect(pairs_view(self.entries@))
    }
}

impl Clone for PipelineVariables {
    fn clone(&self) -> (r: Self)
        ensures
            r@ == self@,
    {
        proof {
            use_type_invariant(self);
        }
        let mut entries: Vec<(String, PipelineVariable)> = Vec::new();
        let mut i: usize = 0;
        while i < self.entries.len()
            invariant
                i <= self.entries.len(),
                entries.len() == i,
                forall|j: int| 0 <= j < i ==> entries@[j].0@ == self.entries@[j].0@
                    && entries@[j].1@ == self.entries@[j].1@,
            decreases self.entries.len() - i,
        {
            let pair = &self.entries[i];
            entries.push((pair.0.clone(), pair.1.clone()));
            i += 1;
        }
        assert(pairs_view(entries@) =~= pairs_view(self.entries@));
        PipelineVariables { entries }
    }
}

impl PipelineVariables {
    #[verifier::type_invariant]
    spec fn keys_unique(self) -> bool {
        (PipelineVariablesView { entries: pairs_view(self.entries@) }).keys_unique()
    }

    /// The keys of a set of pipeline variables are distinct.
    pub proof fn lemma_keys_unique(self)
        ensures
            self@.keys_unique(),
    {
        lemma_collect_keys_unique(pairs_view(self.entries@));
    }

    /// The view of a set with distinct keys is what its entries say.
    proof fn lemma_view(self)
        requires
            (PipelineVariablesView { entries: pairs_view(self.entries@) }).keys_unique(),
        ensures
            self@ == (PipelineVariablesView { entries: pairs_view(self.entries@) }),
            self@.keys_unique(),
    {
        lemma_collect_distinct(pairs_view(self.entries@));
    }

    /// The set without variables.
    pub fn new() -> (r: Self)
        ensures
            r@ == PipelineVariablesView::empty(),
    {
        let r = PipelineVariables { entries: Vec::new() };
        assert(pairs_view(r.entries@) =~= Seq::empty());
        r
    }

    /// The keys with their variables, in the order in which the keys were
    /// first added.
    pub fn entries(&self) -> (r: &Vec<(String, PipelineVariable)>)
        ensures
            pairs_view(r@) == self@.entries,
            self@.keys_unique(),
    {
        proof {
            use_type_invariant(self);
            self.lemma_view();
        }
        &self.entries
    }

    /// The number of variables.
    pub fn len(&self) -> (r: usize)
        ensures
            r == self@.entries.len(),
            self@.keys_unique(),
    {
        proof {
            use_type_invariant(self);
            self.lemma_view();
        }
        self.entries.len()
    }

    /// The position of the variable with the key `key`.
    fn find(&self, key: &str) -> (r: Option<usize>)
        ensures
            match r {
                Some(i) => self@.contains_key(key@) && i == self@.position(key@)
                    && i < self.entries@.len(),
                None => !self@.contains_key(key@),
            },
    {
        proof {
            use_type_invariant(self);
            self.lemma_view();
        }
        let mut i: usize = 0;
        while i < self.entries.len()
            invariant
                i <= self.entries.len(),
                self@ == (PipelineVariablesView { entries: pairs_view(self.entries@) }),
                forall|j: int| 0 <= j < i ==> self@.entries[j].0 != key@,
            decreases self.entries.len() - i,
        {
            if str_eq(self.entries[i].0.as_str(), key) {
                proof {
                    use_type_invariant(self);
                    self.lemma_view();
                    assert(self@.entries[i as int].0 == key@);
                    let p = self@.position(key@);
                    assert(self@.entries[p].0 == key@);
                }
                return Some(i);
            }
            i += 1;
        }
        None
    }

    /// The variable with the key `key`.
    pub fn get(&self, key: &str) -> (r: Option<&PipelineVariable>)
        ensures
            match r {
                Some(v) => self@.get(key@) == Some(v@),
                None => self@.get(key@) is None,
            },
    {
        proof {
            use_type_invariant(self);
            self.lemma_view();
        }
        match self.find(key) {
            Some(i) => Some(&self.entries[i].1),
            None => None,
        }
    }

    /// Bind `key` to `value`, in place of the variable that had the key.
    pub fn insert(&mut self, key: String, value: PipelineVariable)
        ensures
            final(self)@ == old(self)@.insert(key@, value@),
            final(self)@.keys_unique(),
    {
        proof {
            use_type_invariant(&*self);
            self.lemma_view();
        }
        let ghost before = self@;
        let found = self.find(key.as_str());
        let mut entries: Vec<(String, PipelineVariable)> = Vec::new();
        assert(pairs_view(entries@) =~= Seq::empty());
        core::mem::swap(&mut entries, &mut self.entries);
        match found {
            Some(i) => {
                entries.set(i, (key, value));
                proof {
                    assert(pairs_view(entries@) =~= before.entries.update(i as int, (key@, value@)));
                }
            },
            None => {
                entries.push((key, value));
                proof {
                    assert(pairs_view(entries@) =~= before.entries.push((key@, value@)));
                }
            },
        }
        proof {
            lemma_insert_keeps_keys_unique(before, key@, value@);
            assert(before.insert(key@, value@).entries == pairs_view(entries@));
            lemma_collect_distinct(pairs_view(entries@));
        }
        self.entries = entries;
    }

    /// The set that holds `pairs`, added from first to last: a later pair
    /// takes the place of an earlier one with the same key.
    pub fn from_pairs(pairs: Vec<(String, PipelineVariable)>) -> (r: Self)
        ensures
            r@ == PipelineVariablesView::collect(pairs_view(pairs@)),
            r@.keys_unique(),
    {
        let mut r = PipelineVariables::new();
        let mut pairs = pairs;
        let ghost all = pairs_view(pairs@);
        let mut rest: Vec<(String, PipelineVariable)> = Vec::new();
        // The pairs are taken from the back, so turn them round first.
        while pairs.len() > 0
            invariant
                pairs_view(pairs@) + pairs_view(rest@).reverse() =~= all,
            decreases pairs.len(),
        {
            let ghost before = pairs@;
            let ghost rest_before = rest@;
            let pair = pairs.pop().unwrap();
            rest.push(pair);
            proof {
                assert(pairs_view(rest@) =~= pairs_view(rest_before).push((pair.0@, pair.1@)));
                assert(pairs_view(before) =~= pairs_view(pairs@).push((pair.0@, pair.1@)));
                assert(pairs_view(rest@).reverse() =~= seq![(pair.0@, pair.1@)] + pairs_view(
                    rest_before,
                ).reverse());
            }
        }
        let ghost mut done: Seq<(Seq<char>, PipelineVariableView)> = Seq::empty();
        while rest.len() > 0
            invariant
                done + pairs_view(rest@).reverse() =~= all,
                r@ == PipelineVariablesView::collect(done),
            decreases rest.len(),
        {
            let ghost rest_before = rest@;
            let pair = rest.pop().unwrap();
            proof {
                let next = done.push((pair.0@, pair.1@));
                assert(pairs_view(rest_before) =~= pairs_view(rest@).push((pair.0@, pair.1@)));
                assert(pairs_view(rest_before).reverse() =~= seq![(pair.0@, pair.1@)] + pairs_view(
                    rest@,
                ).reverse());
                assert(next.drop_last() =~= done);
                done = next;
            }
            r.insert(pair.0, pair.1);
        }
        proof {
            assert(done =~= all);
            r.lemma_keys_unique();
        }
        r
    }
}

} // verus!
