//! Hoisting: the order in which the statements of a block run.
//!
//! Function declarations run before `var` statements, and both before every
//! other statement; among statements of one class the order of the source is
//! kept.

use std::cmp::Ordering;
use vstd::prelude::*;
use vstd::std_specs::convert::FromSpecImpl;
use crate::ast::node::{Block, FunctionDecl, Node, StatementList};

verus! {

/// The class of a statement for hoisting: 0 for a function declaration, 1
/// for a `var` statement, 2 for any other statement.
pub open spec fn hoist_class(node: Node) -> nat {
    match node {
        Node::FunctionDecl(_) => 0,
        Node::VarDeclList(_) => 1,
        _ => 2,
    }
}

/// The statements of the given class.
pub open spec fn of_class(class: nat) -> spec_fn(Node) -> bool {
    |node: Node| hoist_class(node) == class
}

/// The statements that are hoisted: function declarations and `var`
/// statements.
pub open spec fn is_hoistable(node: Node) -> bool {
    hoist_class(node) < 2
}

/// The function declarations of `nodes` in their order, then its `var`
/// statements in theirs.
pub open spec fn hoisted_declarations(nodes: Seq<Node>) -> Seq<Node> {
    nodes.filter(of_class(0)) + nodes.filter(of_class(1))
}

/// The statements of `nodes` that are not hoisted, in their order.
pub open spec fn other_statements(nodes: Seq<Node>) -> Seq<Node> {
    nodes.filter(of_class(2))
}

/// The statements in the order in which they run: the stable sort of
/// `nodes` by class.
pub open spec fn hoisted(nodes: Seq<Node>) -> Seq<Node> {
    hoisted_declarations(nodes) + other_statements(nodes)
}

/// Filtering a sequence with one more element at its end.
proof fn lemma_filter_push(s: Seq<Node>, x: Node, pred: spec_fn(Node) -> bool)
    ensures
        s.push(x).filter(pred) == if pred(x) {
            s.filter(pred).push(x)
        } else {
            s.filter(pred)
        },
{
    reveal(Seq::filter);
    assert(s.push(x).drop_last() =~= s);
}

/// How the hoisted order grows with one more statement: the statement goes
/// behind the statements of its class and of the classes before it.
proof fn lemma_hoisted_push(s: Seq<Node>, x: Node)
    ensures
        hoisted(s.push(x)) == hoisted(s).insert(
            if hoist_class(x) == 0 {
                s.filter(of_class(0)).len() as int
            } else if hoist_class(x) == 1 {
                (s.filter(of_class(0)).len() + s.filter(of_class(1)).len()) as int
            } else {
                hoisted(s).len() as int
            },
            x,
        ),
{
    lemma_filter_push(s, x, of_class(0));
    lemma_filter_push(s, x, of_class(1));
    lemma_filter_push(s, x, of_class(2));
    let f = s.filter(of_class(0));
    let v = s.filter(of_class(1));
    let o = s.filter(of_class(2));
    if hoist_class(x) == 0 {
        assert(hoisted(s.push(x)) =~= hoisted(s).insert(f.len() as int, x));
    } else if hoist_class(x) == 1 {
        assert(hoisted(s.push(x)) =~= hoisted(s).insert((f.len() + v.len()) as int, x));
    } else {
        assert(hoisted(s.push(x)) =~= hoisted(s).insert(hoisted(s).len() as int, x));
    }
}

/// In the hoisted order the classes stand one after the other.
pub proof fn lemma_hoisted_classes(s: Seq<Node>, k: int)
    requires
        0 <= k < hoisted(s).len(),
    ensures
        hoist_class(hoisted(s)[k]) == if k < s.filter(of_class(0)).len() {
            0nat
        } else if k < s.filter(of_class(0)).len() + s.filter(of_class(1)).len() {
            1nat
        } else {
            2nat
        },
{
    let f = s.filter(of_class(0));
    let v = s.filter(of_class(1));
    let o = s.filter(of_class(2));
    if k < f.len() {
        s.lemma_filter_pred(of_class(0), k);
        assert(hoisted(s)[k] == f[k]);
    } else if k < f.len() + v.len() {
        s.lemma_filter_pred(of_class(1), k - f.len());
        assert(hoisted(s)[k] == v[k - f.len()]);
    } else {
        s.lemma_filter_pred(of_class(2), k - f.len() - v.len());
        assert(hoisted(s)[k] == o[k - f.len() - v.len()]);
    }
}

impl Node {
    /// Compares two statements by hoisting class: a function declaration
    /// comes before a `var` statement, which comes before any other
    /// statement; two statements of one class are equal.
    pub fn hoistable_order(a: &Node, b: &Node) -> (r: Ordering)
        ensures
            r == if hoist_class(*a) < hoist_class(*b) {
                Ordering::Less
            } else if hoist_class(*a) > hoist_class(*b) {
                Ordering::Greater
            } else {
                Ordering::Equal
            },
    {
        match (a, b) {
            (Node::FunctionDecl(_), Node::FunctionDecl(_)) => Ordering::Equal,
            (_, Node::FunctionDecl(_)) => Ordering::Greater,
            (Node::FunctionDecl(_), _) => Ordering::Less,
            (Node::VarDeclList(_), Node::VarDeclList(_)) => Ordering::Equal,
            (_, Node::VarDeclList(_)) => Ordering::Greater,
            (Node::VarDeclList(_), _) => Ordering::Less,
            (_, _) => Ordering::Equal,
        }
    }

    /// Whether the statement is hoisted.
    pub fn is_hoistable(&self) -> (r: bool)
        ensures
            r == is_hoistable(*self),
    {
        match self {
            Node::FunctionDecl(_) => true,
            Node::VarDeclList(_) => true,
            _ => false,
        }
    }
}

/// Whether `a` has to run after `b`.
fn runs_after(a: &Node, b: &Node) -> (r: bool)
    ensures
        r == (hoist_class(*a) > hoist_class(*b)),
{
    match Node::hoistable_order(a, b) {
        Ordering::Greater => true,
        _ => false,
    }
}

/// Sorts statements into the order in which they run: a stable insertion
/// sort that compares statements by their hoisting class.
pub fn hoist(nodes: Vec<Node>) -> (r: Vec<Node>)
    ensures
        r@ == hoisted(nodes@),
{
    let ghost all = nodes@;
    let mut rest = nodes;
    let mut sorted: Vec<Node> = Vec::new();
    let ghost mut done: int = 0;
    proof {
        reveal(Seq::filter);
        assert(all.subrange(0, 0) =~= Seq::<Node>::empty());
        assert(hoisted(Seq::<Node>::empty()) =~= Seq::<Node>::empty());
        assert(all.subrange(0, all.len() as int) =~= all);
    }
    while rest.len() > 0
        invariant
            0 <= done <= all.len(),
            rest@ == all.subrange(done, all.len() as int),
            sorted@ == hoisted(all.subrange(0, done)),
        decreases rest.len(),
    {
        let node = rest.remove(0);
        let ghost before = all.subrange(0, done);
        assert(node == all[done]);
        let mut j = sorted.len();
        while j > 0 && runs_after(&sorted[j - 1], &node)
            invariant
                j <= sorted.len(),
                forall|k: int| j <= k < sorted.len() ==> hoist_class(sorted@[k]) > hoist_class(node),
            decreases j,
        {
            j = j - 1;
        }
        proof {
            lemma_hoisted_push(before, node);
            let f = before.filter(of_class(0)).len();
            let v = before.filter(of_class(1)).len();
            if hoist_class(node) == 0 {
                if j < f {
                    lemma_hoisted_classes(before, j as int);
                }
                if j > f {
                    lemma_hoisted_classes(before, j - 1);
                }
                assert(j == f);
            } else if hoist_class(node) == 1 {
                if j < f + v {
                    lemma_hoisted_classes(before, j as int);
                }
                if j > f + v {
                    lemma_hoisted_classes(before, j - 1);
                }
                assert(j == f + v);
            } else {
                if j < sorted.len() {
                    lemma_hoisted_classes(before, j as int);
                }
                assert(j == sorted.len());
            }
            assert(before.push(node) =~= all.subrange(0, done + 1));
            assert(rest@ =~= all.subrange(done + 1, all.len() as int));
        }
        sorted.insert(j, node);
        proof {
            done = done + 1;
        }
    }
    proof {
        assert(all.subrange(0, all.len() as int) =~= all);
    }
    sorted
}


/// The number of hoisted statements at the head of a sorted list.
fn count_declarations(sorted: &Vec<Node>, Ghost(nodes): Ghost<Seq<Node>>) -> (r: usize)
    requires
        sorted@ == hoisted(nodes),
    ensures
        r == hoisted_declarations(nodes).len(),
{
    let mut k: usize = 0;
    while k < sorted.len() && sorted[k].is_hoistable()
        invariant
            k <= sorted.len(),
            sorted@ == hoisted(nodes),
            k <= hoisted_declarations(nodes).len(),
        decreases sorted.len() - k,
    {
        proof {
            if k >= hoisted_declarations(nodes).len() {
                lemma_hoisted_classes(nodes, k as int);
            }
        }
        k = k + 1;
    }
    proof {
        if k < hoisted_declarations(nodes).len() {
            lemma_hoisted_classes(nodes, k as int);
        }
    }
    k
}

/// The number of function declarations at the head of a sorted list.
fn count_functions(sorted: &Vec<Node>, Ghost(nodes): Ghost<Seq<Node>>) -> (r: usize)
    requires
        sorted@ == hoisted(nodes),
    ensures
        r == nodes.filter(of_class(0)).len(),
{
    let mut k: usize = 0;
    while k < sorted.len() && is_function(&sorted[k])
        invariant
            k <= sorted.len(),
            sorted@ == hoisted(nodes),
            k <= nodes.filter(of_class(0)).len(),
        decreases sorted.len() - k,
    {
        proof {
            if k >= nodes.filter(of_class(0)).len() {
                lemma_hoisted_classes(nodes, k as int);
            }
        }
        k = k + 1;
    }
    proof {
        if k < nodes.filter(of_class(0)).len() {
            lemma_hoisted_classes(nodes, k as int);
        }
    }
    k
}

fn is_function(node: &Node) -> (r: bool)
    ensures
        r == (hoist_class(*node) == 0),
{
    match node {
        Node::FunctionDecl(_) => true,
        _ => false,
    }
}

impl Block {
    /// The block of the given statements, which are sorted into the order in
    /// which they run: the hoisted ones become its declarations, the others
    /// its statements.
    pub fn from_statements(nodes: Vec<Node>) -> (r: Block)
        ensures
            r.hoistable@ == hoisted_declarations(nodes@),
            r.statements@ == other_statements(nodes@),
            r.in_order() == hoisted(nodes@),
    {
        let ghost all = nodes@;
        let mut sorted = hoist(nodes);
        let k = count_declarations(&sorted, Ghost(all));
        let statements = sorted.split_off(k);
        proof {
            assert(sorted@ =~= hoisted_declarations(all));
            assert(statements@ =~= other_statements(all));
        }
        Block { hoistable: sorted, statements }
    }
}

impl From<Vec<Node>> for Block {
    fn from(nodes: Vec<Node>) -> (r: Block)
        ensures
            r.hoistable@ == hoisted_declarations(nodes@),
            r.statements@ == other_statements(nodes@),
    {
        Block::from_statements(nodes)
    }
}

impl FromSpecImpl<Vec<Node>> for Block {
    open spec fn obeys_from_spec() -> bool {
        false
    }

    open spec fn from_spec(nodes: Vec<Node>) -> Block {
        arbitrary()
    }
}

impl StatementList {
    /// The statements in the order in which they run.
    pub open spec fn in_order(self) -> Seq<Node> {
        self.functions@.map_values(|decl: FunctionDecl| Node::FunctionDecl(decl))
            + self.statements@
    }

    /// The list of the given statements, which are sorted into the order in
    /// which they run: the function declarations are set apart, and the
    /// `var` statements come before the other statements.
    pub fn from_statements(nodes: Vec<Node>) -> (r: StatementList)
        ensures
            r.in_order() == hoisted(nodes@),
            r.functions@.len() == nodes@.filter(of_class(0)).len(),
    {
        let ghost all = nodes@;
        let mut sorted = hoist(nodes);
        let k = count_functions(&sorted, Ghost(all));
        let statements = sorted.split_off(k);
        let mut functions: Vec<FunctionDecl> = Vec::new();
        let ghost heads = sorted@;
        proof {
            assert(heads =~= all.filter(of_class(0)));
            assert(statements@ =~= all.filter(of_class(1)) + all.filter(of_class(2)));
        }
        while sorted.len() > 0
            invariant
                sorted@.len() <= heads.len(),
                sorted@ == heads.subrange(0, sorted@.len() as int),
                heads == all.filter(of_class(0)),
                functions@.len() == heads.len() - sorted@.len(),
                forall|i: int|
                    0 <= i < functions@.len() ==> Node::FunctionDecl(#[trigger] functions@[i])
                        == heads[heads.len() - 1 - i],
            decreases sorted.len(),
        {
            let ghost n = sorted@.len();
            proof {
                all.lemma_filter_pred(of_class(0), n - 1);
            }
            match sorted.pop() {
                Some(Node::FunctionDecl(decl)) => {
                    functions.push(decl);
                },
                _ => {},
            }
            proof {
                assert(sorted@ =~= heads.subrange(0, sorted@.len() as int));
            }
        }
        reverse_declarations(&mut functions);
        let list = StatementList { functions, statements };
        proof {
            assert(list.functions@.map_values(|decl: FunctionDecl| Node::FunctionDecl(decl))
                =~= heads);
            assert(list.in_order() =~= hoisted(all));
        }
        list
    }
}

/// Reverses a list of declarations in place.
fn reverse_declarations(list: &mut Vec<FunctionDecl>)
    ensures
        final(list)@ == old(list)@.reverse(),
{
    let mut reversed: Vec<FunctionDecl> = Vec::new();
    let ghost all = list@;
    while list.len() > 0
        invariant
            list@.len() <= all.len(),
            list@ == all.subrange(0, list@.len() as int),
            reversed@.len() == all.len() - list@.len(),
            forall|i: int|
                0 <= i < reversed@.len() ==> #[trigger] reversed@[i] == all[all.len() - 1 - i],
        decreases list.len(),
    {
        match list.pop() {
            Some(decl) => {
                reversed.push(decl);
            },
            None => {},
        }
        proof {
            assert(list@ =~= all.subrange(0, list@.len() as int));
        }
    }
    list.append(&mut reversed);
    proof {
        assert(list@ =~= all.reverse());
    }
}

impl From<Vec<Node>> for StatementList {
    fn from(nodes: Vec<Node>) -> (r: StatementList)
        ensures
            r.in_order() == hoisted(nodes@),
    {
        StatementList::from_statements(nodes)
    }
}

impl FromSpecImpl<Vec<Node>> for StatementList {
    open spec fn obeys_from_spec() -> bool {
        false
    }

    open spec fn from_spec(nodes: Vec<Node>) -> StatementList {
        arbitrary()
    }
}


/// Whatever the order of the source, a statement of an earlier class runs
/// before a statement of a later one: every function declaration before
/// every `var` statement, and both before every other statement.
pub proof fn lemma_declarations_run_first(nodes: Seq<Node>, i: int, j: int)
    requires
        0 <= i < hoisted(nodes).len(),
        0 <= j < hoisted(nodes).len(),
        hoist_class(hoisted(nodes)[i]) < hoist_class(hoisted(nodes)[j]),
    ensures
        i < j,
{
    lemma_hoisted_classes(nodes, i);
    lemma_hoisted_classes(nodes, j);
}

/// Hoisting loses no statement: each statement of the source runs.
pub proof fn lemma_hoisting_keeps_statements(nodes: Seq<Node>, k: int)
    requires
        0 <= k < nodes.len(),
    ensures
        hoisted(nodes).contains(nodes[k]),
{
    let class = hoist_class(nodes[k]);
    nodes.lemma_filter_contains(of_class(class), k);
    let part = nodes.filter(of_class(class));
    let at = choose|at: int| 0 <= at < part.len() && part[at] == nodes[k];
    let f = nodes.filter(of_class(0)).len();
    let v = nodes.filter(of_class(1)).len();
    if class == 0 {
        assert(hoisted(nodes)[at] == nodes[k]);
    } else if class == 1 {
        assert(hoisted(nodes)[f + at] == nodes[k]);
    } else {
        assert(hoisted(nodes)[f + v + at] == nodes[k]);
    }
}

/// Hoisting only reorders: the statements that run are those of the source,
/// each as often as it stands there.
pub proof fn lemma_hoisting_is_a_permutation(nodes: Seq<Node>)
    ensures
        hoisted(nodes).to_multiset() =~= nodes.to_multiset(),
        hoisted(nodes).len() == nodes.len(),
    decreases nodes.len(),
{
    if nodes.len() == 0 {
        reveal(Seq::filter);
        assert(hoisted(nodes) =~= nodes);
    } else {
        let s = nodes.drop_last();
        let x = nodes.last();
        assert(nodes =~= s.push(x));
        lemma_hoisting_is_a_permutation(s);
        lemma_hoisted_push(s, x);
        let t = hoisted(s);
        let k: int = if hoist_class(x) == 0 {
            s.filter(of_class(0)).len() as int
        } else if hoist_class(x) == 1 {
            (s.filter(of_class(0)).len() + s.filter(of_class(1)).len()) as int
        } else {
            t.len() as int
        };
        let u = t.insert(k, x);
        assert(u.remove(k) =~= t);
        assert(u[k] == x);
        vstd::seq_lib::to_multiset_remove(u, k);
        vstd::seq_lib::to_multiset_build(s, x);
        u.to_multiset_ensures();
        assert(u.contains(x));
        assert(u.to_multiset() =~= t.to_multiset().insert(x));
    }
}

} // verus!
