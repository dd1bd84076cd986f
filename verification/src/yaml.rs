//! A YAML document node, as processor configurations are read from, and its model.

use vstd::prelude::*;

verus! {

broadcast use vstd::std_specs::vec::group_vec_axioms;

/// A YAML node. A mapping is a list of `(key, value)` pairs in document order; one
/// loaded from a document has distinct keys. What reads a mapping takes its pairs in
/// order, so on a list where a key repeats, the later pair decides.
#[derive(Debug)]
pub enum Yaml {
    Real(String),
    Integer(i64),
    String(String),
    Boolean(bool),
    Array(Vec<Yaml>),
    Hash(Vec<(Yaml, Yaml)>),
    Alias(usize),
    Null,
    BadValue,
}

/// The mathematical model of a [`Yaml`] node.
pub enum YamlModel {
    Real(Seq<char>),
    Integer(i64),
    String(Seq<char>),
    Boolean(bool),
    Array(Seq<YamlModel>),
    Hash(Seq<(YamlModel, YamlModel)>),
    Alias(usize),
    Null,
    BadValue,
}

pub open spec fn yaml_model(y: Yaml) -> YamlModel
    decreases y,
{
    match y {
        Yaml::Real(s) => YamlModel::Real(s@),
        Yaml::Integer(n) => YamlModel::Integer(n),
        Yaml::String(s) => YamlModel::String(s@),
        Yaml::Boolean(b) => YamlModel::Boolean(b),
        Yaml::Array(a) => YamlModel::Array(
            Seq::new(
                a@.len(),
                |i: int|
                    if 0 <= i < a@.len() {
                        yaml_model(a@[i])
                    } else {
                        YamlModel::Null
                    },
            ),
        ),
        Yaml::Hash(h) => YamlModel::Hash(
            Seq::new(
                h@.len(),
                |i: int|
                    if 0 <= i < h@.len() {
                        (yaml_model(h@[i].0), yaml_model(h@[i].1))
                    } else {
                        (YamlModel::Null, YamlModel::Null)
                    },
            ),
        ),
        Yaml::Alias(n) => YamlModel::Alias(n),
        Yaml::Null => YamlModel::Null,
        Yaml::BadValue => YamlModel::BadValue,
    }
}

impl View for Yaml {
    type V = YamlModel;

    open spec fn view(&self) -> YamlModel {
        yaml_model(*self)
    }
}

/// The model of a list of mapping pairs.
pub open spec fn pairs_model(h: Seq<(Yaml, Yaml)>) -> Seq<(YamlModel, YamlModel)> {
    Seq::new(h.len(), |i: int| (h[i].0@, h[i].1@))
}

/// The model of a list of nodes.
pub open spec fn nodes_model(a: Seq<Yaml>) -> Seq<YamlModel> {
    Seq::new(a.len(), |i: int| a[i]@)
}

pub proof fn lemma_array_model(a: Vec<Yaml>)
    ensures
        yaml_model(Yaml::Array(a)) == YamlModel::Array(nodes_model(a@)),
{
    if let YamlModel::Array(m) = yaml_model(Yaml::Array(a)) {
        assert(m =~= nodes_model(a@));
    }
}

/// The text of a string node.
pub open spec fn spec_as_str(y: YamlModel) -> Option<Seq<char>> {
    match y {
        YamlModel::String(s) => Some(s),
        _ => None,
    }
}

/// The value of a boolean node.
pub open spec fn spec_as_bool(y: YamlModel) -> Option<bool> {
    match y {
        YamlModel::Boolean(b) => Some(b),
        _ => None,
    }
}

/// The items of a sequence node.
pub open spec fn spec_as_vec(y: YamlModel) -> Option<Seq<YamlModel>> {
    match y {
        YamlModel::Array(a) => Some(a),
        _ => None,
    }
}

impl Yaml {
    /// A deep copy of the node.
    #[verifier::loop_isolation(false)]
    pub fn deep_copy(&self) -> (r: Yaml)
        ensures
            r@ == self@,
        decreases self,
    {
        match self {
            Yaml::Real(s) => Yaml::Real(s.clone()),
            Yaml::Integer(n) => Yaml::Integer(*n),
            Yaml::String(s) => Yaml::String(s.clone()),
            Yaml::Boolean(b) => Yaml::Boolean(*b),
            Yaml::Array(a) => {
                let mut out: Vec<Yaml> = Vec::new();
                let mut i: usize = 0;
                while i < a.len()
                    invariant
                        i <= a.len(),
                        out@.len() == i,
                        forall|j: int| 0 <= j < i ==> (#[trigger] out@[j])@ == a@[j]@,
                    decreases a.len() - i,
                {
                    proof {
                        assert(decreases_to!(*a => a[i as int]));
                    }
                    let c = a[i].deep_copy();
                    out.push(c);
                    i = i + 1;
                }
                let r = Yaml::Array(out);
                assert(r@ == self@) by {
                    if let YamlModel::Array(x) = r@ {
                        if let YamlModel::Array(y) = self@ {
                            assert(x =~= y);
                        }
                    }
                }
                r
            },
            Yaml::Hash(h) => {
                let mut out: Vec<(Yaml, Yaml)> = Vec::new();
                let mut i: usize = 0;
                while i < h.len()
                    invariant
                        i <= h.len(),
                        out@.len() == i,
                        forall|j: int|
                            0 <= j < i ==> (#[trigger] out@[j]).0@ == h@[j].0@ && out@[j].1@
                                == h@[j].1@,
                    decreases h.len() - i,
                {
                    proof {
                        assert(decreases_to!(*h => h[i as int]));
                    }
                    let k = h[i].0.deep_copy();
                    let v = h[i].1.deep_copy();
                    out.push((k, v));
                    i = i + 1;
                }
                let r = Yaml::Hash(out);
                assert(r@ == self@) by {
                    if let YamlModel::Hash(x) = r@ {
                        if let YamlModel::Hash(y) = self@ {
                            assert(x =~= y);
                        }
                    }
                }
                r
            },
            Yaml::Alias(n) => Yaml::Alias(*n),
            Yaml::Null => Yaml::Null,
            Yaml::BadValue => Yaml::BadValue,
        }
    }

    /// The text of a string node.
    pub fn as_str(&self) -> (r: Option<&str>)
        ensures
            r is Some <==> spec_as_str(self@) is Some,
            r is Some ==> r->0@ == spec_as_str(self@)->0,
    {
        match self {
            Yaml::String(s) => Some(s.as_str()),
            _ => None,
        }
    }

    /// The value of a boolean node.
    pub fn as_bool(&self) -> (r: Option<bool>)
        ensures
            r == spec_as_bool(self@),
    {
        match self {
            Yaml::Boolean(b) => Some(*b),
            _ => None,
        }
    }

    /// The items of a sequence node.
    pub fn as_vec(&self) -> (r: Option<&Vec<Yaml>>)
        ensures
            r is Some <==> spec_as_vec(self@) is Some,
            r is Some ==> nodes_model(r->0@) == spec_as_vec(self@)->0,
    {
        match self {
            Yaml::Array(a) => {
                proof {
                    lemma_array_model(*a);
                }
                Some(a)
            },
            _ => None,
        }
    }
}

} // verus!
