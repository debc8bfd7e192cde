//! Decisions over environment variables. Reading the process environment and
//! parsing a value into a type are left to the caller, which hands over what
//! it found.
use vstd::prelude::*;
use vstd::string::StringExecFns;

verus! {

/// What looking up and parsing one environment variable gave.
#[derive(Debug, Clone, PartialEq, Eq)]
pub enum VarLookup<T> {
    /// The variable is not set (or not valid Unicode).
    NotSet,
    /// The variable is set but its value does not parse as the wanted type.
    Unparsable,
    /// The variable is set and its value parsed to this.
    Parsed(T),
}

/// Why an environment requirement failed.
#[derive(Debug, Clone, PartialEq, Eq)]
pub enum EnvError {
    NotSet { name: String },
    Unparsable { name: String },
    Missing { names: Vec<String> },
}

/// Names joined with ", ".
pub open spec fn join_names(names: Seq<Seq<char>>) -> Seq<char>
    decreases names.len(),
{
    if names.len() == 0 {
        Seq::empty()
    } else if names.len() == 1 {
        names[0]
    } else {
        join_names(names.drop_last()) + ", "@ + names.last()
    }
}

/// The text that describes an environment error.
pub open spec fn spec_env_message(e: EnvError) -> Seq<char> {
    match e {
        EnvError::NotSet { name } => "Environment variable "@ + name@ + " not set"@,
        EnvError::Unparsable { name } => "Failed to parse environment variable "@ + name@,
        EnvError::Missing { names } => "Missing required environment variables: "@ + join_names(names.deep_view()),
    }
}

impl EnvError {
    /// The text that describes this error.
    pub fn message(&self) -> (r: String)
        ensures
            r@ == spec_env_message(*self),
    {
        let mut m = String::new();
        match self {
            EnvError::NotSet { name } => {
                m.append("Environment variable ");
                m.append(name.as_str());
                m.append(" not set");
            },
            EnvError::Unparsable { name } => {
                m.append("Failed to parse environment variable ");
                m.append(name.as_str());
            },
            EnvError::Missing { names } => {
                m.append("Missing required environment variables: ");
                let ghost base = m@;
                let mut i: usize = 0;
                while i < names.len()
                    invariant
                        i <= names@.len(),
                        m@ == base + join_names(names.deep_view().take(i as int)),
                    decreases names@.len() - i,
                {
                    if i > 0 {
                        m.append(", ");
                    }
                    m.append(names[i].as_str());
                    assert(names.deep_view().take(i + 1).drop_last() =~= names.deep_view().take(i as int));
                    i = i + 1;
                }
                assert(names.deep_view().take(i as int) =~= names.deep_view());
            },
        }
        m
    }
}

/// The value of an environment variable, or why there is none: not set, or
/// not parsable as the wanted type.
pub fn var<T>(name: &str, lookup: VarLookup<T>) -> (r: Result<T, EnvError>)
    ensures
        match lookup {
            VarLookup::NotSet => r matches Err(EnvError::NotSet { name: n }) && n@ == name@,
            VarLookup::Unparsable => r matches Err(EnvError::Unparsable { name: n }) && n@ == name@,
            VarLookup::Parsed(v) => r == Ok::<T, EnvError>(v),
        },
{
    match lookup {
        VarLookup::NotSet => Err(EnvError::NotSet { name: name.to_owned() }),
        VarLookup::Unparsable => Err(EnvError::Unparsable { name: name.to_owned() }),
        VarLookup::Parsed(v) => Ok(v),
    }
}

/// The value of an environment variable, or `default` when it is not set or
/// does not parse.
pub fn var_or<T>(lookup: VarLookup<T>, default: T) -> (r: T)
    ensures
        r == (match lookup {
            VarLookup::Parsed(v) => v,
            _ => default,
        }),
{
    match lookup {
        VarLookup::Parsed(v) => v,
        _ => default,
    }
}

/// The names, in order, of the variables that are not set.
pub open spec fn missing_names(vars: Seq<(&str, bool)>) -> Seq<Seq<char>>
    decreases vars.len(),
{
    if vars.len() == 0 {
        Seq::empty()
    } else if vars.last().1 {
        missing_names(vars.drop_last())
    } else {
        missing_names(vars.drop_last()).push(vars.last().0@)
    }
}

/// Checks that every listed variable is set; `vars` pairs each name with
/// whether it is set. Fails listing every unset name, in order.
pub fn require_vars(vars: &[(&str, bool)]) -> (r: Result<(), EnvError>)
    ensures
        missing_names(vars@).len() == 0 ==> r is Ok,
        missing_names(vars@).len() > 0 ==> (r matches Err(EnvError::Missing { names })
            && names.deep_view() == missing_names(vars@)),
{
    let mut missing: Vec<String> = Vec::new();
    let mut i: usize = 0;
    while i < vars.len()
        invariant
            i <= vars@.len(),
            missing.deep_view() == missing_names(vars@.take(i as int)),
        decreases vars@.len() - i,
    {
        assert(vars@.take(i + 1).drop_last() =~= vars@.take(i as int));
        let (name, set) = vars[i];
        if !set {
            let ghost before = missing.deep_view();
            missing.push(name.to_owned());
            assert(missing.deep_view() =~= before.push(name@));
        }
        i = i + 1;
    }
    assert(vars@.take(i as int) =~= vars@);
    if missing.len() == 0 {
        Ok(())
    } else {
        Err(EnvError::Missing { names: missing })
    }
}

/// The error of a failed requirement names every unset variable, and only
/// unset variables.
pub proof fn lemma_missing_names_exact(vars: Seq<(&str, bool)>)
    ensures
        forall|i: int| 0 <= i < vars.len() && !(#[trigger] vars[i]).1 ==> missing_names(vars).contains(vars[i].0@),
        forall|k: int| 0 <= k < missing_names(vars).len() ==> exists|i: int|
            0 <= i < vars.len() && !(#[trigger] vars[i]).1 && vars[i].0@ == #[trigger] missing_names(vars)[k],
    decreases vars.len(),
{
    if vars.len() > 0 {
        let prev = vars.drop_last();
        lemma_missing_names_exact(prev);
        let m = missing_names(vars);
        let pm = missing_names(prev);
        assert forall|i: int| 0 <= i < vars.len() && !(#[trigger] vars[i]).1 implies m.contains(vars[i].0@) by {
            if i < vars.len() - 1 {
                assert(prev[i] == vars[i]);
                let k = choose|k: int| 0 <= k < pm.len() && pm[k] == vars[i].0@;
                assert(m[k] == pm[k]);
            } else {
                assert(m.last() == vars[i].0@);
            }
        }
        assert forall|k: int| 0 <= k < m.len() implies exists|i: int|
            0 <= i < vars.len() && !(#[trigger] vars[i]).1 && vars[i].0@ == #[trigger] m[k] by {
            if k < pm.len() {
                assert(m[k] == pm[k]);
                let i = choose|i: int| 0 <= i < prev.len() && !(#[trigger] prev[i]).1 && prev[i].0@ == pm[k];
                assert(vars[i] == prev[i]);
            } else {
                assert(!vars[vars.len() - 1].1);
            }
        }
    }
}

} // verus!
