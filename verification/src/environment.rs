use crate::value::{Value, ValueView};
use vstd::hash_map::StringHashMap;
use vstd::prelude::*;

verus! {

/// One scope: a table from names to values. A name is bound at most once;
/// binding it again replaces its value.
pub struct Environment {
    values: StringHashMap<Value>,
}

impl View for Environment {
    type V = Map<Seq<char>, ValueView>;

    closed spec fn view(&self) -> Map<Seq<char>, ValueView> {
        self.values@.map_values(|value: Value| value@)
    }
}

impl Environment {
    /// A scope without bindings.
    pub fn new() -> (environment: Environment)
        ensures
            environment@ == Map::<Seq<char>, ValueView>::empty(),
    {
        let environment = Environment { values: StringHashMap::new() };
        assert(environment@ =~= Map::<Seq<char>, ValueView>::empty());
        environment
    }

    /// Binds `name` to `value`, replacing the value that `name` may have.
    pub fn define(&mut self, name: String, value: Value)
        ensures
            final(self)@ == old(self)@.insert(name@, value@),
    {
        self.values.insert(name, value);
        assert(self@ =~= old(self)@.insert(name@, value@));
    }

    /// A copy of the value that `name` is bound to.
    pub fn get(&self, name: &str) -> (r: Option<Value>)
        ensures
            match r {
                Some(value) => self@.contains_key(name@) && value@ == self@[name@],
                None => !self@.contains_key(name@),
            },
    {
        match self.values.get(name) {
            Some(value) => Some(value.clone()),
            None => None,
        }
    }

    /// Gives `name` a new value. Only a bound name can be given one: an
    /// unbound name is reported and nothing changes.
    pub fn assign(&mut self, name: &str, value: Value) -> (r: Result<(), String>)
        ensures
            match r {
                Ok(_) => old(self)@.contains_key(name@) && final(self)@ == old(self)@.insert(
                    name@,
                    value@,
                ),
                Err(message) => !old(self)@.contains_key(name@) && final(self)@ == old(self)@
                    && message@ == undefined_variable(name@),
            },
    {
        if self.values.contains_key(name) {
            self.values.insert(name.to_owned(), value);
            assert(self@ =~= old(self)@.insert(name@, value@));
            Ok(())
        } else {
            Err(undefined_variable_message(name))
        }
    }
}

/// The message for a name that is read or reassigned without being bound.
pub open spec fn undefined_variable(name: Seq<char>) -> Seq<char> {
    "Undefined variable '"@ + name + "'."@
}

/// The message for a name that is read or reassigned without being bound.
pub fn undefined_variable_message(name: &str) -> (message: String)
    ensures
        message@ == undefined_variable(name@),
{
    let mut message = "Undefined variable '".to_owned();
    message.append(name);
    message.append("'.");
    message
}

} // verus!
