//! The lexical environment: a stack of scopes that bind names to values.
//!
//! The bottom scope is the global one. A block pushes a scope on entry and
//! pops it on exit. A name is looked up from the top scope down, so a
//! binding in an inner scope hides one of the same name further out.

use vstd::prelude::*;
use crate::value::{Content, Value};

verus! {

/// Where a declaration puts its binding.
#[derive(Clone, Copy, Debug, PartialEq, Eq, Structural)]
pub enum VariableScope {
    /// In the innermost scope.
    Block,
    /// In the innermost scope of a function, or in the global scope.
    Function,
}

/// A name bound in a scope. A binding without a value has been declared and
/// not yet initialised.
#[derive(Debug, PartialEq)]
pub struct Binding {
    name: String,
    value: Option<Value>,
    deletable: bool,
}

/// A scope: its bindings in the order of their declaration.
#[derive(Debug, PartialEq)]
pub struct Scope {
    function: bool,
    bindings: Vec<Binding>,
}

/// A stack of scopes: the global scope, and the scopes pushed on it.
#[derive(Debug, PartialEq)]
pub struct LexicalEnvironment {
    global: Scope,
    inner: Vec<Scope>,
}

/// A binding, as mathematics sees it.
pub struct BindingView {
    pub name: Seq<char>,
    pub value: Option<Content>,
    pub deletable: bool,
}

/// A scope, as mathematics sees it.
pub struct ScopeView {
    /// Whether the scope is that of a function, or the global one.
    pub function: bool,
    pub bindings: Seq<BindingView>,
}

impl View for Binding {
    type V = BindingView;

    closed spec fn view(&self) -> BindingView {
        BindingView {
            name: self.name@,
            value: match self.value {
                Some(v) => Some(v@),
                None => None,
            },
            deletable: self.deletable,
        }
    }
}

impl View for Scope {
    type V = ScopeView;

    closed spec fn view(&self) -> ScopeView {
        ScopeView {
            function: self.function,
            bindings: self.bindings@.map_values(|b: Binding| b@),
        }
    }
}

impl View for LexicalEnvironment {
    type V = Seq<ScopeView>;

    closed spec fn view(&self) -> Seq<ScopeView> {
        seq![self.global@] + self.inner@.map_values(|s: Scope| s@)
    }
}

impl ScopeView {
    /// Whether the scope binds the name.
    pub open spec fn has(self, name: Seq<char>) -> bool {
        exists|i: int| 0 <= i < self.bindings.len() && #[trigger] self.bindings[i].name == name
    }

    /// Whether `i` is the place of the first binding of the name.
    pub open spec fn is_slot(self, name: Seq<char>, i: int) -> bool {
        &&& 0 <= i < self.bindings.len()
        &&& self.bindings[i].name == name
        &&& forall|k: int| 0 <= k < i ==> #[trigger] self.bindings[k].name != name
    }

    /// The place of the binding of the name.
    pub open spec fn slot(self, name: Seq<char>) -> int {
        choose|i: int| self.is_slot(name, i)
    }

    /// The value that the scope binds the name to; undefined where it binds
    /// it to none.
    pub open spec fn value_of(self, name: Seq<char>) -> Content {
        if self.has(name) {
            match self.bindings[self.slot(name)].value {
                Some(v) => v,
                None => Content::Undefined,
            }
        } else {
            Content::Undefined
        }
    }

    /// The scope with the name declared: a new binding without a value at
    /// the end, unless the scope binds the name already.
    pub open spec fn declare(self, name: Seq<char>, deletable: bool) -> ScopeView {
        if self.has(name) {
            self
        } else {
            ScopeView {
                function: self.function,
                bindings: self.bindings.push(BindingView { name, value: None, deletable }),
            }
        }
    }

    /// The scope with the value stored in its binding of the name; the scope
    /// itself where it has none.
    pub open spec fn store(self, name: Seq<char>, value: Content) -> ScopeView {
        if self.has(name) {
            let i = self.slot(name);
            ScopeView {
                function: self.function,
                bindings: self.bindings.update(
                    i,
                    BindingView { name, value: Some(value), deletable: self.bindings[i].deletable },
                ),
            }
        } else {
            self
        }
    }
}

/// The innermost scope that binds the name, or -1 where none does.
pub open spec fn holder(scopes: Seq<ScopeView>, name: Seq<char>) -> int
    decreases scopes.len(),
{
    if scopes.len() == 0 {
        -1
    } else if scopes.last().has(name) {
        scopes.len() - 1
    } else {
        holder(scopes.drop_last(), name)
    }
}

/// The innermost scope of a function; the bottom scope where there is none.
pub open spec fn function_scope(scopes: Seq<ScopeView>) -> int
    decreases scopes.len(),
{
    if scopes.len() <= 1 {
        0
    } else if scopes.last().function {
        scopes.len() - 1
    } else {
        function_scope(scopes.drop_last())
    }
}

/// Whether a scope binds the name.
pub open spec fn has_binding(scopes: Seq<ScopeView>, name: Seq<char>) -> bool {
    holder(scopes, name) >= 0
}

/// The value of the name: that of its innermost binding; undefined where it
/// has no binding or no value yet.
pub open spec fn binding_value(scopes: Seq<ScopeView>, name: Seq<char>) -> Content {
    if has_binding(scopes, name) {
        scopes[holder(scopes, name)].value_of(name)
    } else {
        Content::Undefined
    }
}

/// The scope in which a declaration puts its binding.
pub open spec fn target_scope(scopes: Seq<ScopeView>, scope: VariableScope) -> int {
    match scope {
        VariableScope::Block => scopes.len() - 1,
        VariableScope::Function => function_scope(scopes),
    }
}

/// The scopes with the name declared in the scope that `scope` names.
pub open spec fn declared(
    scopes: Seq<ScopeView>,
    name: Seq<char>,
    deletable: bool,
    scope: VariableScope,
) -> Seq<ScopeView> {
    let t = target_scope(scopes, scope);
    scopes.update(t, scopes[t].declare(name, deletable))
}

/// The scopes with the value stored in the innermost binding of the name;
/// the scopes themselves where the name has no binding.
pub open spec fn stored(scopes: Seq<ScopeView>, name: Seq<char>, value: Content) -> Seq<
    ScopeView,
> {
    if has_binding(scopes, name) {
        let h = holder(scopes, name);
        scopes.update(h, scopes[h].store(name, value))
    } else {
        scopes
    }
}

/// The holder is a scope of the stack, and it binds the name.
pub proof fn lemma_holder(scopes: Seq<ScopeView>, name: Seq<char>)
    ensures
        -1 <= holder(scopes, name) < scopes.len(),
        holder(scopes, name) >= 0 ==> scopes[holder(scopes, name)].has(name),
        forall|k: int|
            holder(scopes, name) < k < scopes.len() ==> !(#[trigger] scopes[k]).has(name),
    decreases scopes.len(),
{
    if scopes.len() > 0 && !scopes.last().has(name) {
        lemma_holder(scopes.drop_last(), name);
        assert forall|k: int| holder(scopes, name) < k < scopes.len() implies !(
        #[trigger] scopes[k]).has(name) by {
            if k < scopes.len() - 1 {
                assert(scopes.drop_last()[k] == scopes[k]);
            }
        }
    }
}

/// The function scope is a scope of the stack.
pub proof fn lemma_function_scope(scopes: Seq<ScopeView>)
    requires
        scopes.len() > 0,
    ensures
        0 <= function_scope(scopes) < scopes.len(),
    decreases scopes.len(),
{
    if scopes.len() > 1 && !scopes.last().function {
        lemma_function_scope(scopes.drop_last());
    }
}

impl Scope {
    /// A new scope of a block, without bindings.
    pub fn new_declarative() -> (r: Scope)
        ensures
            r@ == (ScopeView { function: false, bindings: Seq::empty() }),
    {
        let r = Scope { function: false, bindings: Vec::new() };
        assert(r@.bindings =~= Seq::empty());
        r
    }

    /// A new scope of a function, without bindings.
    pub fn new_function() -> (r: Scope)
        ensures
            r@ == (ScopeView { function: true, bindings: Seq::empty() }),
    {
        let r = Scope { function: true, bindings: Vec::new() };
        assert(r@.bindings =~= Seq::empty());
        r
    }

    /// The place of the binding of the name, where the scope has one.
    fn find(&self, name: &String) -> (r: Option<usize>)
        ensures
            match r {
                Some(i) => self@.has(name@) && i == self@.slot(name@) && self@.is_slot(
                    name@,
                    i as int,
                ),
                None => !self@.has(name@),
            },
    {
        let mut i: usize = 0;
        while i < self.bindings.len()
            invariant
                i <= self.bindings@.len(),
                forall|k: int| 0 <= k < i ==> #[trigger] self@.bindings[k].name != name@,
            decreases self.bindings.len() - i,
        {
            if self.bindings[i].name.eq(name) {
                assert(self@.bindings[i as int].name == name@);
                assert(self@.is_slot(name@, i as int));
                return Some(i);
            }
            i = i + 1;
        }
        None
    }
}


/// The innermost scope that binds the name is the holder.
proof fn lemma_holder_is(scopes: Seq<ScopeView>, name: Seq<char>, h: int)
    requires
        -1 <= h < scopes.len(),
        h >= 0 ==> scopes[h].has(name),
        forall|k: int| h < k < scopes.len() ==> !(#[trigger] scopes[k]).has(name),
    ensures
        holder(scopes, name) == h,
    decreases scopes.len(),
{
    if scopes.len() > 0 && h < scopes.len() - 1 {
        assert(!scopes[scopes.len() - 1].has(name));
        assert forall|k: int| h < k < scopes.drop_last().len() implies !(#[trigger] scopes.drop_last()[k]).has(
            name,
        ) by {
            assert(scopes.drop_last()[k] == scopes[k]);
        }
        if h >= 0 {
            assert(scopes.drop_last()[h] == scopes[h]);
        }
        lemma_holder_is(scopes.drop_last(), name, h);
    }
}

/// The innermost scope of a function is the function scope.
proof fn lemma_function_scope_is(scopes: Seq<ScopeView>, t: int)
    requires
        0 <= t < scopes.len(),
        t > 0 ==> scopes[t].function,
        forall|k: int| t < k < scopes.len() ==> !(#[trigger] scopes[k]).function,
    ensures
        function_scope(scopes) == t,
    decreases scopes.len(),
{
    if scopes.len() > 1 && t < scopes.len() - 1 {
        assert(!scopes[scopes.len() - 1].function);
        assert forall|k: int| t < k < scopes.drop_last().len() implies !(#[trigger] scopes.drop_last()[k]).function by {
            assert(scopes.drop_last()[k] == scopes[k]);
        }
        assert(scopes.drop_last()[t] == scopes[t]);
        lemma_function_scope_is(scopes.drop_last(), t);
    }
}

impl LexicalEnvironment {
    /// A new environment: the global scope alone, without bindings.
    pub fn new() -> (r: LexicalEnvironment)
        ensures
            r@ == seq![ScopeView { function: true, bindings: Seq::empty() }],
    {
        let r = LexicalEnvironment { global: Scope::new_function(), inner: Vec::new() };
        assert(r@ =~= seq![ScopeView { function: true, bindings: Seq::empty() }]);
        r
    }

    /// The number of scopes on top of the global one.
    pub fn depth(&self) -> (r: usize)
        ensures
            r == self@.len() - 1,
    {
        self.inner.len()
    }

    /// Pushes a scope, which becomes the innermost one.
    pub fn push(&mut self, scope: Scope)
        ensures
            final(self)@ == old(self)@.push(scope@),
    {
        self.inner.push(scope);
        assert(self@ =~= old(self)@.push(scope@));
    }

    /// Pops the innermost scope and returns it. The global scope is never
    /// popped: with it alone left, nothing happens and `None` is returned.
    pub fn pop(&mut self) -> (r: Option<Scope>)
        ensures
            old(self)@.len() > 1 ==> r.is_some() && r.unwrap()@ == old(self)@.last(),
            old(self)@.len() > 1 ==> final(self)@ == old(self)@.drop_last(),
            old(self)@.len() <= 1 ==> r.is_none() && final(self)@ == old(self)@,
    {
        let r = self.inner.pop();
        proof {
            if old(self).inner@.len() > 0 {
                assert(self@ =~= old(self)@.drop_last());
            } else {
                assert(self@ =~= old(self)@);
            }
        }
        r
    }

    /// The scope at a place of the stack.
    fn scope_at(&self, k: usize) -> (r: &Scope)
        requires
            k < self@.len(),
        ensures
            r@ == self@[k as int],
    {
        if k == 0 {
            &self.global
        } else {
            &self.inner[k - 1]
        }
    }

    /// The innermost scope that binds the name.
    fn find_holder(&self, name: &String) -> (r: Option<usize>)
        ensures
            match r {
                Some(h) => h == holder(self@, name@) && h < self@.len(),
                None => holder(self@, name@) == -1,
            },
    {
        let mut i = self.inner.len();
        while i > 0
            invariant
                i <= self.inner@.len(),
                forall|k: int| i < k < self@.len() ==> !(#[trigger] self@[k]).has(name@),
            decreases i,
        {
            if self.scope_at(i).find(name).is_some() {
                proof {
                    lemma_holder_is(self@, name@, i as int);
                }
                return Some(i);
            }
            i = i - 1;
        }
        if self.global.find(name).is_some() {
            proof {
                lemma_holder_is(self@, name@, 0);
            }
            Some(0)
        } else {
            proof {
                lemma_holder_is(self@, name@, -1);
            }
            None
        }
    }

    /// The innermost scope of a function.
    fn find_function_scope(&self) -> (r: usize)
        ensures
            r == function_scope(self@),
            r < self@.len(),
    {
        let mut i = self.inner.len();
        while i > 0 && !self.scope_at(i).function
            invariant
                i <= self.inner@.len(),
                forall|k: int| i < k < self@.len() ==> !(#[trigger] self@[k]).function,
            decreases i,
        {
            i = i - 1;
        }
        proof {
            lemma_function_scope_is(self@, i as int);
        }
        i
    }

    /// Whether a scope binds the name.
    pub fn has_binding(&self, name: &str) -> (r: bool)
        ensures
            r == has_binding(self@, name@),
    {
        let key = String::from_str(name);
        self.find_holder(&key).is_some()
    }

    /// The value of the name: that of its innermost binding, and undefined
    /// where it has no binding or no value yet.
    pub fn get_binding_value(&self, name: &str) -> (r: Value)
        ensures
            r@ == binding_value(self@, name@),
    {
        let key = String::from_str(name);
        match self.find_holder(&key) {
            Some(h) => {
                let scope = self.scope_at(h);
                match scope.find(&key) {
                    Some(i) => {
                        match &scope.bindings[i].value {
                            Some(v) => v.share(),
                            None => Value::undefined(),
                        }
                    },
                    None => Value::undefined(),
                }
            },
            None => Value::undefined(),
        }
    }

    /// Declares the name, without a value, in the innermost scope or in the
    /// innermost scope of a function. Where that scope binds the name
    /// already, the binding stays as it is.
    pub fn create_mutable_binding(&mut self, name: String, deletable: bool, scope: VariableScope)
        ensures
            final(self)@ == declared(old(self)@, name@, deletable, scope),
            final(self)@.len() == old(self)@.len(),
    {
        let t = match scope {
            VariableScope::Block => self.inner.len(),
            VariableScope::Function => self.find_function_scope(),
        };
        if self.scope_at(t).find(&name).is_none() {
            let ghost before = self@[t as int];
            let binding = Binding { name, value: None, deletable };
            if t == 0 {
                self.global.bindings.push(binding);
            } else {
                self.inner[t - 1].bindings.push(binding);
            }
            proof {
                assert(self@[t as int].bindings =~= before.bindings.push(
                    BindingView { name: name@, value: None, deletable },
                ));
                assert(self@ =~= declared(old(self)@, name@, deletable, scope));
            }
        } else {
            assert(self@ =~= declared(old(self)@, name@, deletable, scope));
        }
    }

    /// Stores the value in the innermost binding of the name. Where the name
    /// has no binding, nothing happens.
    fn store(&mut self, name: &str, value: Value)
        ensures
            final(self)@ == stored(old(self)@, name@, value@),
            final(self)@.len() == old(self)@.len(),
    {
        let key = String::from_str(name);
        match self.find_holder(&key) {
            Some(h) => {
                match self.scope_at(h).find(&key) {
                    Some(i) => {
                        let ghost before = self@[h as int];
                        if h == 0 {
                            self.global.bindings[i].value = Some(value);
                        } else {
                            self.inner[h - 1].bindings[i].value = Some(value);
                        }
                        proof {
                            assert(self@[h as int].bindings =~= before.bindings.update(
                                i as int,
                                BindingView {
                                    name: name@,
                                    value: Some(value@),
                                    deletable: before.bindings[i as int].deletable,
                                },
                            ));
                            assert(self@ =~= stored(old(self)@, name@, value@));
                        }
                    },
                    None => {},
                }
            },
            None => {},
        }
    }

    /// Gives the innermost binding of the name its first value. Where the
    /// name has no binding, nothing happens.
    pub fn initialize_binding(&mut self, name: &str, value: Value)
        ensures
            final(self)@ == stored(old(self)@, name@, value@),
            final(self)@.len() == old(self)@.len(),
    {
        self.store(name, value)
    }

    /// Gives the innermost binding of the name a new value. Where the name
    /// has no binding, nothing happens, in strict mode and out of it.
    pub fn set_mutable_binding(&mut self, name: &str, value: Value, strict: bool)
        ensures
            final(self)@ == stored(old(self)@, name@, value@),
            final(self)@.len() == old(self)@.len(),
    {
        self.store(name, value)
    }
}

/// Storing a value in a scope keeps the names that the scope binds, and
/// makes the value that of the name.
pub proof fn lemma_scope_store(scope: ScopeView, name: Seq<char>, value: Content, other: Seq<char>)
    requires
        scope.has(name),
    ensures
        scope.store(name, value).has(other) == scope.has(other),
        scope.store(name, value).value_of(name) == value,
        other != name ==> scope.store(name, value).value_of(other) == scope.value_of(other),
{
    let i = scope.slot(name);
    let w = choose|w: int| 0 <= w < scope.bindings.len() && #[trigger] scope.bindings[w].name == name;
    lemma_first_binding(scope, name, w);
    assert(scope.is_slot(name, i));
    let after = scope.store(name, value);
    assert(after.bindings.len() == scope.bindings.len());
    assert forall|k: int| 0 <= k < scope.bindings.len() implies #[trigger] after.bindings[k].name
        == scope.bindings[k].name by {}
    if scope.has(other) {
        let k = choose|k: int| 0 <= k < scope.bindings.len() && #[trigger] scope.bindings[k].name == other;
        assert(after.bindings[k].name == other);
    }
    if after.has(other) {
        let k = choose|k: int| 0 <= k < after.bindings.len() && #[trigger] after.bindings[k].name == other;
        assert(scope.bindings[k].name == other);
    }
    assert(after.is_slot(name, i));
    lemma_slot_is(after, name, i);
    if other != name && scope.has(other) {
        let j = scope.slot(other);
        let k = choose|k: int| 0 <= k < scope.bindings.len() && #[trigger] scope.bindings[k].name == other;
        lemma_first_binding(scope, other, k);
        assert(scope.is_slot(other, j));
        assert(after.is_slot(other, j));
        lemma_slot_is(after, other, j);
    }
}

/// A scope that binds a name has a first binding of it.
proof fn lemma_first_binding(scope: ScopeView, name: Seq<char>, w: int)
    requires
        0 <= w < scope.bindings.len(),
        scope.bindings[w].name == name,
    ensures
        scope.is_slot(name, scope.slot(name)),
    decreases w,
{
    if exists|k: int| 0 <= k < w && #[trigger] scope.bindings[k].name == name {
        let k = choose|k: int| 0 <= k < w && #[trigger] scope.bindings[k].name == name;
        lemma_first_binding(scope, name, k);
    } else {
        assert(scope.is_slot(name, w));
    }
}

/// The first binding of a name is its slot.
proof fn lemma_slot_is(scope: ScopeView, name: Seq<char>, i: int)
    requires
        scope.is_slot(name, i),
    ensures
        scope.slot(name) == i,
        scope.has(name),
{
    let j = scope.slot(name);
    assert(scope.is_slot(name, j));
    if j < i {
        assert(scope.bindings[j].name != name);
    }
    if i < j {
        assert(scope.bindings[i].name != name);
    }
}

/// Declaring a name in a scope makes the scope bind it, and keeps the other
/// names and their values.
pub proof fn lemma_scope_declare(scope: ScopeView, name: Seq<char>, deletable: bool, other: Seq<char>)
    ensures
        scope.declare(name, deletable).has(name),
        other != name ==> scope.declare(name, deletable).has(other) == scope.has(other),
        other != name ==> scope.declare(name, deletable).value_of(other) == scope.value_of(other),
        !scope.has(name) ==> scope.declare(name, deletable).value_of(name) == Content::Undefined,
{
    let after = scope.declare(name, deletable);
    if !scope.has(name) {
        let n = scope.bindings.len() as int;
        assert(after.bindings[n].name == name);
        assert(after.is_slot(name, n));
        lemma_slot_is(after, name, n);
        assert forall|k: int| 0 <= k < n implies #[trigger] after.bindings[k] == scope.bindings[k] by {}
        if other != name {
            if scope.has(other) {
                let k = choose|k: int| 0 <= k < scope.bindings.len() && #[trigger] scope.bindings[k].name == other;
                assert(after.bindings[k].name == other);
                lemma_first_binding(scope, other, k);
                let j = scope.slot(other);
                assert(after.is_slot(other, j));
                lemma_slot_is(after, other, j);
            }
            if after.has(other) {
                let k = choose|k: int| 0 <= k < after.bindings.len() && #[trigger] after.bindings[k].name == other;
                assert(scope.bindings[k].name == other);
            }
        }
    }
}

/// A value that is stored is the value that is read: after a value is
/// stored under a bound name, the name has that value, every other name has
/// the value it had, and the same names are bound.
pub proof fn lemma_store_then_read(scopes: Seq<ScopeView>, name: Seq<char>, value: Content, other: Seq<char>)
    requires
        has_binding(scopes, name),
    ensures
        holder(stored(scopes, name, value), other) == holder(scopes, other),
        binding_value(stored(scopes, name, value), name) == value,
        other != name ==> binding_value(stored(scopes, name, value), other) == binding_value(
            scopes,
            other,
        ),
{
    lemma_holder(scopes, name);
    lemma_holder(scopes, other);
    let h = holder(scopes, name);
    let after = stored(scopes, name, value);
    lemma_scope_store(scopes[h], name, value, other);
    lemma_scope_store(scopes[h], name, value, name);
    assert forall|k: int| 0 <= k < scopes.len() implies (#[trigger] after[k]).has(other)
        == scopes[k].has(other) by {}
    lemma_holder_is(after, other, holder(scopes, other));
    lemma_holder_is(after, name, h);
}

/// A name that is declared is bound, in the scope that the declaration
/// names; what is bound elsewhere stays as it is.
pub proof fn lemma_declare_binds(scopes: Seq<ScopeView>, name: Seq<char>, deletable: bool, scope: VariableScope)
    requires
        scopes.len() >= 1,
    ensures
        has_binding(declared(scopes, name, deletable, scope), name),
        declared(scopes, name, deletable, scope).len() == scopes.len(),
        !has_binding(scopes, name) ==> holder(declared(scopes, name, deletable, scope), name)
            == target_scope(scopes, scope),
{
    lemma_function_scope(scopes);
    let t = target_scope(scopes, scope);
    let after = declared(scopes, name, deletable, scope);
    lemma_scope_declare(scopes[t], name, deletable, name);
    lemma_holder(after, name);
    lemma_holder(scopes, name);
    if holder(after, name) < t {
        assert(after[t].has(name));
    }
    if !has_binding(scopes, name) {
        assert forall|k: int| t < k < after.len() implies !(#[trigger] after[k]).has(name) by {
            assert(after[k] == scopes[k]);
        }
        lemma_holder_is(after, name, t);
    }
}

/// Declaring a name and storing a value change no scope but one, and the
/// number of scopes not at all.
pub proof fn lemma_scopes_stay(
    scopes: Seq<ScopeView>,
    name: Seq<char>,
    deletable: bool,
    scope: VariableScope,
    value: Content,
)
    requires
        scopes.len() >= 1,
    ensures
        declared(scopes, name, deletable, scope).len() == scopes.len(),
        stored(scopes, name, value).len() == scopes.len(),
        stored(declared(scopes, name, deletable, scope), name, value).len() == scopes.len(),
{
    lemma_function_scope(scopes);
    lemma_holder(scopes, name);
    lemma_holder(declared(scopes, name, deletable, scope), name);
}

/// What a block declares in its own scope is gone when the scope is popped:
/// the environment is then as it was before the block was entered.
pub proof fn lemma_block_scope_is_dropped(scopes: Seq<ScopeView>, scope: ScopeView, name: Seq<char>, deletable: bool, value: Content)
    ensures
        declared(scopes.push(scope), name, deletable, VariableScope::Block).drop_last() == scopes,
        stored(
            declared(scopes.push(scope), name, deletable, VariableScope::Block),
            name,
            value,
        ).drop_last() == scopes,
{
    let entered = scopes.push(scope);
    let with_name = declared(entered, name, deletable, VariableScope::Block);
    assert(with_name.drop_last() =~= scopes);
    lemma_declare_binds(entered, name, deletable, VariableScope::Block);
    lemma_scope_declare(scope, name, deletable, name);
    assert(with_name.last().has(name));
    assert(holder(with_name, name) == with_name.len() - 1);
    assert(stored(with_name, name, value).drop_last() =~= scopes);
}

/// Assigning to a name that is not bound makes a new binding in the scope of
/// the function, which holds the assigned value whatever the name was bound
/// to in a scope that has been popped.
pub proof fn lemma_assignment_makes_a_new_binding(scopes: Seq<ScopeView>, name: Seq<char>, value: Content)
    requires
        scopes.len() >= 1,
        !has_binding(scopes, name),
    ensures
        binding_value(
            stored(declared(scopes, name, true, VariableScope::Function), name, value),
            name,
        ) == value,
        holder(stored(declared(scopes, name, true, VariableScope::Function), name, value), name)
            == function_scope(scopes),
{
    let with_name = declared(scopes, name, true, VariableScope::Function);
    lemma_declare_binds(scopes, name, true, VariableScope::Function);
    lemma_store_then_read(with_name, name, value, name);
}

} // verus!
