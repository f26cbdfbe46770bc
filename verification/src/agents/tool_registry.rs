//! A name-indexed table of invocable functions with their parameter schemas.
//!
//! Model-facing units that support tool calling look tools up here by name.
//! The registry is populated once at startup and read many times; execution
//! is synchronous from the caller's perspective.

use vstd::prelude::*;
use vstd::string::StringExecFns;

use crate::value::{spec_get, Value, ValueV};

verus! {

/// A function that can be registered as a tool.
///
/// [`ToolCallable::spec_call`] states exactly which value the callable
/// returns for parameters with a given view.
pub trait ToolCallable: Sized {
    /// The value `call` returns on parameters with view `params`.
    spec fn spec_call(&self, params: ValueV) -> ValueV;

    /// Invokes the callable, as promised by [`ToolCallable::spec_call`].
    fn call(&self, params: &Value) -> (r: Value)
        ensures
            r.deep_view() == self.spec_call(params.deep_view()),
    ;
}

/// One registered tool: its unique name, a human-readable description, the
/// callable itself, and a schema describing the accepted parameters.
pub struct ToolEntry<F> {
    /// The tool's name, unique within a registry.
    pub name: String,
    /// A human-readable description of what the tool does.
    pub description: String,
    /// The callable invoked when the tool is executed.
    pub function: F,
    /// The schema describing the parameters the callable accepts.
    pub schema: Value,
}

impl<F> ToolEntry<F> {
    /// Creates a new tool entry.
    pub fn new(name: String, description: String, function: F, schema: Value) -> (r: Self)
        ensures
            r == (ToolEntry { name, description, function, schema }),
    {
        ToolEntry { name, description, function, schema }
    }
}

/// The first entry named `name`, if any.
pub open spec fn find_tool<F>(s: Seq<ToolEntry<F>>, name: Seq<char>) -> Option<ToolEntry<F>>
    decreases s.len(),
{
    if s.len() == 0 {
        None
    } else if s.first().name@ == name {
        Some(s.first())
    } else {
        find_tool(s.drop_first(), name)
    }
}

proof fn lemma_find_tool_at<F>(s: Seq<ToolEntry<F>>, name: Seq<char>, i: int)
    requires
        0 <= i < s.len(),
        s[i].name@ == name,
        forall|j: int| 0 <= j < i ==> s[j].name@ != name,
    ensures
        find_tool(s, name) == Some(s[i]),
    decreases s.len(),
{
    if i > 0 {
        lemma_find_tool_at(s.drop_first(), name, i - 1);
    }
}

proof fn lemma_find_tool_absent<F>(s: Seq<ToolEntry<F>>, name: Seq<char>)
    requires
        forall|j: int| 0 <= j < s.len() ==> s[j].name@ != name,
    ensures
        find_tool(s, name) is None,
    decreases s.len(),
{
    if s.len() > 0 {
        lemma_find_tool_absent(s.drop_first(), name);
    }
}

/// A name-indexed table of tools.
pub struct ToolRegistry<F> {
    tools: Vec<ToolEntry<F>>,
}

impl<F> ToolRegistry<F> {
    /// The registry never holds two tools with one name.
    #[verifier::type_invariant]
    spec fn well_formed(&self) -> bool {
        forall|i: int, j: int|
            0 <= i < j < self.tools@.len() ==> self.tools@[i].name@ != self.tools@[j].name@
    }

    /// The first registered tool carrying `name`, if any.
    pub closed spec fn spec_lookup(&self, name: Seq<char>) -> Option<ToolEntry<F>> {
        find_tool(self.tools@, name)
    }
}

impl<F: ToolCallable> ToolRegistry<F> {
    /// Creates an empty registry.
    pub fn new() -> (r: Self)
        ensures
            forall|name: Seq<char>| r.spec_lookup(name) is None,
    {
        let r = ToolRegistry { tools: Vec::new() };
        proof {
            assert forall|name: Seq<char>| r.spec_lookup(name) is None by {
                lemma_find_tool_absent(r.tools@, name);
            }
        }
        r
    }

    /// Returns the index of the tool named `name`, if any.
    fn find(&self, name: &String) -> (r: Option<usize>)
        ensures
            match r {
                Some(i) => i < self.tools@.len() && self.tools@[i as int].name@ == name@
                    && self.spec_lookup(name@) == Some(self.tools@[i as int]),
                None => self.spec_lookup(name@) is None,
            },
    {
        proof {
            use_type_invariant(&*self);
        }
        let n = self.tools.len();
        let mut i: usize = 0;
        while i < n
            invariant
                self.well_formed(),
                n == self.tools@.len(),
                i <= n,
                forall|j: int| 0 <= j < i ==> self.tools@[j].name@ != name@,
            decreases n - i,
        {
            if self.tools[i].name == *name {
                proof {
                    lemma_find_tool_at(self.tools@, name@, i as int);
                }
                return Some(i);
            }
            i += 1;
        }
        proof {
            lemma_find_tool_absent(self.tools@, name@);
        }
        None
    }

    /// Inserts `entry` into the registry, overwriting any tool already
    /// registered under the same name.
    pub fn register_tool(&mut self, entry: ToolEntry<F>)
        ensures
            final (self).spec_lookup(entry.name@) == Some(entry),
            forall|name: Seq<char>| name != entry.name@ ==> final (self).spec_lookup(name) == old(
                self,
            ).spec_lookup(name),
            final (self).spec_len() == if old(self).spec_lookup(entry.name@) is Some {
                old(self).spec_len()
            } else {
                old(self).spec_len() + 1
            },
            final (self).spec_entry_at(final (self).spec_len() - 1) == entry,
    {
        proof {
            use_type_invariant(&*self);
        }
        let ghost pre = self.tools@;
        let found = self.find(&entry.name);
        let mut tools: Vec<ToolEntry<F>> = Vec::new();
        core::mem::swap(&mut tools, &mut self.tools);
        match found {
            Some(i) => {
                let _ = tools.remove(i);
                proof {
                    lemma_remove_preserves_lookup(pre, i as int);
                    assert forall|a: int, b: int|
                        0 <= a < b < tools@.len() implies tools@[a].name@ != tools@[b].name@ by {
                        let ia: int = if a < i { a } else { a + 1 };
                        let ib: int = if b < i { b } else { b + 1 };
                        assert(tools@[a] == pre[ia]);
                        assert(tools@[b] == pre[ib]);
                    }
                }
            },
            None => {
            },
        }
        let ghost mid = tools@;
        let ghost e = entry;
        tools.push(entry);
        proof {
            lemma_find_tool_none(mid, e.name@);
            lemma_push_lookup(mid, e, e.name@);
            assert forall|name: Seq<char>| name != e.name@ implies find_tool(tools@, name)
                == find_tool(mid, name) by {
                lemma_push_lookup(mid, e, name);
            }
            assert forall|a: int, b: int|
                0 <= a < b < tools@.len() implies tools@[a].name@ != tools@[b].name@ by {
                if b < mid.len() {
                    assert(tools@[a] == mid[a]);
                    assert(tools@[b] == mid[b]);
                } else {
                    assert(tools@[a] == mid[a]);
                    assert(tools@[b] == e);
                }
            }
        }
        self.tools = tools;
    }

    /// Looks up the tool named `name` and invokes it with `params`,
    /// returning the callable's result, or an error message when no such
    /// tool is registered.
    pub fn execute_tool(&self, name: &String, params: Value) -> (r: Result<Value, String>)
        ensures
            match self.spec_lookup(name@) {
                Some(entry) => r matches Ok(v) && v.deep_view() == entry.function.spec_call(
                    params.deep_view(),
                ),
                None => r matches Err(m) && m@ == "Tool "@ + name@ + " not found"@,
            },
    {
        match self.find(name) {
            Some(i) => Ok(self.tools[i].function.call(&params)),
            None => {
                let mut m = String::new();
                m.append("Tool ");
                m.append(name.as_str());
                m.append(" not found");
                proof {
                    assert(m@ == "Tool "@ + name@ + " not found"@);
                }
                Err(m)
            },
        }
    }

    /// Returns the parameter schema of the tool named `name`, or an error
    /// message when no such tool is registered.
    pub fn get_tool_spec(&self, name: &String) -> (r: Result<&Value, String>)
        ensures
            match self.spec_lookup(name@) {
                Some(entry) => r matches Ok(v) && v.deep_view() == entry.schema.deep_view(),
                None => r matches Err(m) && m@ == "Schema for tool "@ + name@ + " not found"@,
            },
    {
        match self.find(name) {
            Some(i) => Ok(&self.tools[i].schema),
            None => {
                let mut m = String::new();
                m.append("Schema for tool ");
                m.append(name.as_str());
                m.append(" not found");
                Err(m)
            },
        }
    }

    /// Returns the schemas of every registered tool, in registration order:
    /// position `i` holds the schema of the entry at registration position
    /// `i`, and that entry is exactly the one a lookup under its name finds.
    pub fn schemas(&self) -> (r: Vec<Value>)
        ensures
            r.deep_view().len() == self.spec_len(),
            forall|i: int| 0 <= i < r.deep_view().len() ==> #[trigger] r.deep_view()[i]
                == self.spec_entry_at(i).schema.deep_view(),
            forall|i: int| 0 <= i < r.deep_view().len() ==> self.spec_lookup(
                (#[trigger] self.spec_entry_at(i)).name@,
            ) == Some(self.spec_entry_at(i)),
    {
        let n = self.tools.len();
        let mut r: Vec<Value> = Vec::new();
        let mut i: usize = 0;
        while i < n
            invariant
                n == self.tools@.len(),
                i <= n,
                r.deep_view().len() == i,
                forall|j: int| 0 <= j < i ==> #[trigger] r.deep_view()[j]
                    == self.tools@[j].schema.deep_view(),
            decreases n - i,
        {
            let ghost prev = r.deep_view();
            let v = self.tools[i].schema.clone();
            let ghost dv = v.deep_view();
            r.push(v);
            proof {
                assert(r.deep_view() =~= prev.push(dv));
            }
            i += 1;
        }
        proof {
            use_type_invariant(&*self);
            assert forall|i: int| 0 <= i < r.deep_view().len() implies self.spec_lookup(
                (#[trigger] self.spec_entry_at(i)).name@,
            ) == Some(self.spec_entry_at(i)) by {
                lemma_find_tool_at(self.tools@, self.tools@[i].name@, i);
            }
        }
        r
    }

    /// The number of registered tools.
    pub closed spec fn spec_len(&self) -> nat {
        self.tools@.len()
    }

    /// The entry at registration position `i`.
    pub closed spec fn spec_entry_at(&self, i: int) -> ToolEntry<F> {
        self.tools@[i]
    }
}

proof fn lemma_remove_preserves_lookup<F>(s: Seq<ToolEntry<F>>, i: int)
    requires
        0 <= i < s.len(),
        forall|a: int, b: int| 0 <= a < b < s.len() ==> s[a].name@ != s[b].name@,
    ensures
        forall|name: Seq<char>| name != s[i].name@ ==> find_tool(s.remove(i), name) == find_tool(
            s,
            name,
        ),
        find_tool(s.remove(i), s[i].name@) is None,
    decreases s.len(),
{
    assert forall|name: Seq<char>| name != s[i].name@ implies find_tool(s.remove(i), name)
        == find_tool(s, name) by {
        lemma_remove_lookup_other(s, i, name);
    }
    assert forall|j: int| 0 <= j < s.remove(i).len() implies s.remove(i)[j].name@ != s[i].name@ by {
        if j < i {
            assert(s.remove(i)[j] == s[j]);
        } else {
            assert(s.remove(i)[j] == s[j + 1]);
        }
    }
    lemma_find_tool_absent(s.remove(i), s[i].name@);
}

proof fn lemma_remove_lookup_other<F>(s: Seq<ToolEntry<F>>, i: int, name: Seq<char>)
    requires
        0 <= i < s.len(),
        name != s[i].name@,
    ensures
        find_tool(s.remove(i), name) == find_tool(s, name),
    decreases s.len(),
{
    if i == 0 {
        assert(s.remove(0) =~= s.drop_first());
    } else {
        assert(s.remove(i).drop_first() =~= s.drop_first().remove(i - 1));
        assert(s.remove(i).first() == s.first());
        lemma_remove_lookup_other(s.drop_first(), i - 1, name);
    }
}

proof fn lemma_find_tool_none<F>(s: Seq<ToolEntry<F>>, name: Seq<char>)
    requires
        find_tool(s, name) is None,
    ensures
        forall|j: int| 0 <= j < s.len() ==> s[j].name@ != name,
    decreases s.len(),
{
    if s.len() > 0 {
        lemma_find_tool_none(s.drop_first(), name);
        assert forall|j: int| 0 <= j < s.len() implies s[j].name@ != name by {
            if j > 0 {
                assert(s[j] == s.drop_first()[j - 1]);
            }
        }
    }
}

proof fn lemma_push_lookup<F>(s: Seq<ToolEntry<F>>, e: ToolEntry<F>, name: Seq<char>)
    ensures
        name == e.name@ && find_tool(s, name) is None ==> find_tool(s.push(e), name) == Some(e),
        name != e.name@ ==> find_tool(s.push(e), name) == find_tool(s, name),
        find_tool(s, name) is Some ==> find_tool(s.push(e), name) == find_tool(s, name),
    decreases s.len(),
{
    reveal_with_fuel(find_tool, 2);
    if s.len() == 0 {
        assert(s.push(e).first() == e);
        assert(s.push(e).drop_first() =~= Seq::<ToolEntry<F>>::empty());
    } else {
        assert(s.push(e).first() == s.first());
        assert(s.push(e).drop_first() =~= s.drop_first().push(e));
        lemma_push_lookup(s.drop_first(), e, name);
    }
}

impl<F: ToolCallable> Default for ToolRegistry<F> {
    /// An empty registry.
    fn default() -> (r: Self)
        ensures
            forall|name: Seq<char>| r.spec_lookup(name) is None,
    {
        ToolRegistry::new()
    }
}

/// A sample tool that adds the integer fields `x` and `y` of its parameter
/// object, returning the sum, or null when the parameters are not two
/// integers or their sum does not fit the integer range.
pub struct AddTool {

}

impl ToolCallable for AddTool {
    open spec fn spec_call(&self, params: ValueV) -> ValueV {
        match (spec_get(params, "x"@), spec_get(params, "y"@)) {
            (Some(ValueV::Int(a)), Some(ValueV::Int(b))) => if i64::MIN <= a + b <= i64::MAX {
                ValueV::Int((a + b) as i64)
            } else {
                ValueV::Null
            },
            _ => ValueV::Null,
        }
    }

    fn call(&self, params: &Value) -> (r: Value)
        ensures
            r.deep_view() == self.spec_call(params.deep_view()),
    {
        let x_key = String::from_str("x");
        let y_key = String::from_str("y");
        proof {
            reveal_strlit("x");
            reveal_strlit("y");
        }
        match (params.get(&x_key), params.get(&y_key)) {
            (Some(Value::Int(a)), Some(Value::Int(b))) => {
                match a.checked_add(*b) {
                    Some(sum) => Value::Int(sum),
                    None => Value::Null,
                }
            },
            _ => Value::Null,
        }
    }
}

} // verus!
