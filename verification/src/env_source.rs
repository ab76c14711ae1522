//! The Environment Source: an abstract key/value lookup of process-scoped
//! strings, taken as a snapshot value so that loading is a pure function of
//! it.  A present value whose bytes are not valid text is distinguished
//! from an absent one and surfaced as an error, never silently dropped.

use vstd::prelude::*;

use crate::errors::Error;
use crate::errors::ErrorView;

verus! {

/// A value read from the environment: text, or present bytes that are not
/// valid text.
#[derive(Clone, Debug, PartialEq, Eq)]
pub enum EnvValue {
    Text(String),
    NotText,
}

/// A snapshot of named environment variables.  Lookup takes the first
/// entry with a matching name.
#[derive(Clone, Debug)]
pub struct Env {
    pub vars: Vec<(String, EnvValue)>,
}

/// The value of the first entry with the given name, if any.
pub open spec fn env_lookup(entries: Seq<(String, EnvValue)>, name: Seq<char>) -> Option<EnvValue>
    decreases entries.len(),
{
    if entries.len() == 0 {
        None
    } else if entries[0].0@ == name {
        Some(entries[0].1)
    } else {
        env_lookup(entries.drop_first(), name)
    }
}

impl Env {
    /// An empty environment: every lookup is absent.
    pub fn empty() -> (r: Env)
        ensures
            r.vars@.len() == 0,
    {
        Env { vars: Vec::new() }
    }

    /// What this snapshot holds under a name.
    pub open spec fn spec_get(&self, name: Seq<char>) -> Option<EnvValue> {
        env_lookup(self.vars@, name)
    }
}

/// Environment Source lookup: present text is `Ok(Some)`, absence is
/// `Ok(None)`, and a present value that is not text is an `InvalidEnvVar`
/// error carrying the name and the marker `<not unicode>`.
pub fn env_var(env: &Env, name: &str) -> (r: Result<Option<String>, Error>)
    ensures
        match env.spec_get(name@) {
            None => r == Ok::<Option<String>, Error>(None),
            Some(EnvValue::Text(s)) => r == Ok::<Option<String>, Error>(Some(s)),
            Some(EnvValue::NotText) => r matches Err(e) && e@ == (ErrorView::InvalidEnvVar {
                name: name@,
                value: "<not unicode>"@,
            }),
        },
{
    let n: String = name.to_owned();
    let len = env.vars.len();
    let mut i: usize = 0;
    proof {
        assert(env.vars@.skip(0) =~= env.vars@);
    }
    while i < len
        invariant
            0 <= i <= len,
            len == env.vars@.len(),
            n@ == name@,
            env_lookup(env.vars@, name@) == env_lookup(env.vars@.skip(i as int), name@),
        decreases len - i,
    {
        let entry = &env.vars[i];
        proof {
            assert(env.vars@.skip(i as int)[0] == env.vars@[i as int]);
        }
        if entry.0 == n {
            proof {
                assert(env_lookup(env.vars@.skip(i as int), name@) == Some(env.vars@[i as int].1));
            }
            match &entry.1 {
                EnvValue::Text(s) => {
                    return Ok(Some(s.clone()));
                },
                EnvValue::NotText => {
                    return Err(Error::InvalidEnvVar { name: n, value: "<not unicode>".to_owned() });
                },
            }
        }
        proof {
            assert(env.vars@.skip(i as int).drop_first() =~= env.vars@.skip(i as int + 1));
        }
        i = i + 1;
    }
    proof {
        assert(env.vars@.skip(len as int).len() == 0);
    }
    Ok(None)
}

/// Some string with this view is an input on which `parse` can answer
/// `Ok(t)`.
pub open spec fn parse_can_accept<T, E, Parse: FnOnce(&str) -> Result<T, E>>(
    parse: Parse,
    sv: Seq<char>,
    t: T,
) -> bool {
    exists|ss: &str| ss@ == sv && #[trigger] call_ensures(parse, (ss,), Ok::<T, E>(t))
}

/// Some string with this view is an input on which `parse` can fail.
pub open spec fn parse_can_reject<T, E, Parse: FnOnce(&str) -> Result<T, E>>(
    parse: Parse,
    sv: Seq<char>,
) -> bool {
    exists|ss: &str, err: E| ss@ == sv && #[trigger] call_ensures(parse, (ss,), Err::<T, E>(err))
}

/// Looks a variable up and applies `parse` to a present text value.
/// Absence is `Ok(None)`; a parse failure, like a non-text value, is an
/// `InvalidEnvVar` error carrying the name and the raw text, uniformly for
/// every parser.
pub fn env_var_parse<T, E, Parse: FnOnce(&str) -> Result<T, E>>(
    env: &Env,
    name: &str,
    parse: Parse,
) -> (r: Result<Option<T>, Error>)
    requires
        forall|s: &str| #[trigger] call_requires(parse, (s,)),
    ensures
        env.spec_get(name@) is None ==> r == Ok::<Option<T>, Error>(None),
        (env.spec_get(name@) matches Some(EnvValue::NotText)) ==> (r matches Err(e) && e@
            == (ErrorView::InvalidEnvVar { name: name@, value: "<not unicode>"@ })),
        env.spec_get(name@) matches Some(EnvValue::Text(s)) ==> match r {
            Ok(opt) => opt matches Some(t) && parse_can_accept(parse, s@, t),
            Err(e) => e@ == (ErrorView::InvalidEnvVar { name: name@, value: s@ })
                && parse_can_reject::<T, E, Parse>(parse, s@),
        },
{
    match env_var(env, name) {
        Err(e) => Err(e),
        Ok(None) => Ok(None),
        Ok(Some(s)) => {
            let x = s.as_str();
            match parse(x) {
                Ok(t) => {
                    proof {
                        assert(parse_can_accept(parse, s@, t)) by {
                            assert(x@ == s@ && call_ensures(parse, (x,), Ok::<T, E>(t)));
                        }
                    }
                    Ok(Some(t))
                },
                Err(err) => {
                    proof {
                        assert(parse_can_reject::<T, E, Parse>(parse, s@)) by {
                            assert(x@ == s@ && call_ensures(parse, (x,), Err::<T, E>(err)));
                        }
                    }
                    Err(Error::InvalidEnvVar { name: name.to_owned(), value: s })
                },
            }
        },
    }
}

} // verus!
