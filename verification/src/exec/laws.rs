//! Laws of the interpreter.

use vstd::prelude::*;
use crate::ast::node::Node;
use crate::ast::op::LogOp;
use crate::exec::semantics::popped;
use crate::exec::state::{ActionView, ControlView, EventView, FrameView, State};
use crate::value::Content;

verus! {

/// `&&` whose left operand is not true, and `||` whose left operand is,
/// never evaluate their right operand: in one step the operator is done,
/// with the truth of the left operand as its value, and neither the
/// environment nor the signal of a `return` has changed.
pub proof fn lemma_short_circuit(state: State, op: LogOp, right: Node, v: Content)
    requires
        state.control == ControlView::Value(v),
        state.stack.len() > 0,
        state.stack.last() == (FrameView::LogicalLeft { op, right }),
        (op == LogOp::And) != v.is_true(),
    ensures
        state.step(EventView::Nothing).action == ActionView::Continue,
        state.step(EventView::Nothing).state == (State {
            stack: state.stack.drop_last(),
            control: ControlView::Value(Content::Boolean(v.is_true())),
            ..state
        }),
        !(state.step(EventView::Nothing).state.control is Evaluate),
{
    reveal(State::step);
}

/// A logical operator whose left operand does not decide it goes on to
/// evaluate its right operand.
pub proof fn lemma_no_short_circuit(state: State, op: LogOp, right: Node, v: Content)
    requires
        state.control == ControlView::Value(v),
        state.stack.len() > 0,
        state.stack.last() == (FrameView::LogicalLeft { op, right }),
        (op == LogOp::And) == v.is_true(),
    ensures
        state.step(EventView::Nothing).state.control == ControlView::Evaluate(right),
{
    reveal(State::step);
}

/// With a `return` in flight, a value that reaches a block leaves the block
/// at once: no statement of the block is started, and the scope of the
/// block is popped.
pub proof fn lemma_return_leaves_block(state: State, v: Content)
    requires
        state.control == ControlView::Value(v),
        state.is_return,
        state.in_blocks(1),
    ensures
        state.step(EventView::Nothing).action == ActionView::Continue,
        state.step(EventView::Nothing).state == (State {
            stack: state.stack.drop_last(),
            environment: popped(state.environment),
            ..state
        }),
{
    reveal(State::step);
}

/// A `return` in flight leaves every block that encloses it: through
/// `count` nested blocks, `count` steps start no statement, take off the
/// frames of the blocks and pop their scopes, and the value and the signal
/// of the `return` go through unchanged.
pub proof fn lemma_return_leaves_nested_blocks(state: State, v: Content, count: nat)
    requires
        state.control == ControlView::Value(v),
        state.is_return,
        state.in_blocks(count),
        state.environment.len() > count,
    ensures
        state.after(count) == (State {
            stack: state.stack.subrange(0, state.stack.len() - count),
            environment: state.environment.subrange(0, state.environment.len() - count),
            ..state
        }),
    decreases count,
{
    if count == 0 {
        assert(state.stack.subrange(0, state.stack.len() as int) =~= state.stack);
        assert(state.environment.subrange(0, state.environment.len() as int)
            =~= state.environment);
    } else {
        lemma_return_leaves_block(state, v);
        let next = state.step(EventView::Nothing).state;
        assert(next.in_blocks((count - 1) as nat)) by {
            assert forall|i: int| next.stack.len() - (count - 1) <= i < next.stack.len() implies (
            #[trigger] next.stack[i]) is Block by {
                assert(next.stack[i] == state.stack[i]);
            }
        }
        lemma_return_leaves_nested_blocks(next, v, (count - 1) as nat);
        assert(next.stack.subrange(0, next.stack.len() - (count - 1)) =~= state.stack.subrange(
            0,
            state.stack.len() - count,
        ));
        assert(next.environment.subrange(0, next.environment.len() - (count - 1))
            =~= state.environment.subrange(0, state.environment.len() - count));
    }
}

/// A thrown value leaves every block that encloses it in the same way:
/// the frames of the blocks are taken off and their scopes popped.
pub proof fn lemma_throw_leaves_nested_blocks(state: State, thrown: Content, count: nat)
    requires
        state.control == ControlView::Throw(thrown),
        state.in_blocks(count),
        state.environment.len() > count,
    ensures
        state.after(count) == (State {
            stack: state.stack.subrange(0, state.stack.len() - count),
            environment: state.environment.subrange(0, state.environment.len() - count),
            ..state
        }),
    decreases count,
{
    if count == 0 {
        assert(state.stack.subrange(0, state.stack.len() as int) =~= state.stack);
        assert(state.environment.subrange(0, state.environment.len() as int)
            =~= state.environment);
    } else {
        reveal(State::step);
        let next = state.step(EventView::Nothing).state;
        assert(state.stack.last() is Block);
        assert(next == (State {
            stack: state.stack.drop_last(),
            environment: popped(state.environment),
            ..state
        }));
        assert(next.in_blocks((count - 1) as nat)) by {
            assert forall|i: int| next.stack.len() - (count - 1) <= i < next.stack.len() implies (
            #[trigger] next.stack[i]) is Block by {
                assert(next.stack[i] == state.stack[i]);
            }
        }
        lemma_throw_leaves_nested_blocks(next, thrown, (count - 1) as nat);
        assert(next.stack.subrange(0, next.stack.len() - (count - 1)) =~= state.stack.subrange(
            0,
            state.stack.len() - count,
        ));
        assert(next.environment.subrange(0, next.environment.len() - (count - 1))
            =~= state.environment.subrange(0, state.environment.len() - count));
    }
}

/// `return` sets the signal: a `return` without an expression at once, and
/// one with an expression when the value of the expression reaches it.
pub proof fn lemma_return_sets_signal(state: State, v: Content)
    ensures
        state.begins(Node::Return(None)).state.is_return,
        state.resumes(FrameView::Return, v).state.is_return,
        state.resumes(FrameView::Return, v).state.control == ControlView::Value(v),
{
}

/// A block that is entered and has nothing to run leaves the environment as
/// it was; a block with something to run has one more scope while it runs.
pub proof fn lemma_block_pushes_scope(state: State, block: crate::ast::node::Block)
    requires
        state.environment.len() >= 1,
    ensures
        block.hoistable@.len() + block.statements@.len() == 0 ==> state.begins(
            Node::Block(block),
        ).state.environment == state.environment,
        block.hoistable@.len() + block.statements@.len() > 0 ==> state.begins(
            Node::Block(block),
        ).state.environment.drop_last() == state.environment,
{
    let pushed = state.environment.push(
        crate::environment::ScopeView { function: false, bindings: Seq::empty() },
    );
    assert(pushed.drop_last() =~= state.environment);
}


/// The number of blocks that are under way.
pub open spec fn blocks(stack: Seq<FrameView>) -> nat
    decreases stack.len(),
{
    if stack.len() == 0 {
        0
    } else {
        blocks(stack.drop_last()) + if stack.last() is Block {
            1nat
        } else {
            0nat
        }
    }
}

/// The number of scopes that belong to no block under way.
pub open spec fn scopes_below_blocks(state: State) -> int {
    state.environment.len() - blocks(state.stack)
}

/// Whether the next state has the scopes and the blocks of the state.
pub open spec fn keeps_scopes(state: State, next: State) -> bool {
    &&& next.environment.len() == state.environment.len()
    &&& blocks(next.stack) == blocks(state.stack)
    &&& next.is_return == state.is_return
}

proof fn lemma_blocks_push(stack: Seq<FrameView>, frame: FrameView)
    ensures
        blocks(stack.push(frame)) == blocks(stack) + if frame is Block {
            1nat
        } else {
            0nat
        },
{
    assert(stack.push(frame).drop_last() =~= stack);
}

proof fn lemma_takes_keeps_scopes(state: State, outcome: crate::pending::OutcomeView)
    ensures
        keeps_scopes(state, state.takes(outcome).state),
{
    match outcome {
        crate::pending::OutcomeView::Pending(p) => {
            lemma_blocks_push(state.stack, FrameView::Pending(p));
        },
        _ => {},
    }
}

proof fn lemma_compares_keeps_scopes(
    state: State,
    equality: crate::operations::EqualityView,
    negate: bool,
)
    ensures
        keeps_scopes(state, state.compares(equality, negate).state),
{
    match equality {
        crate::operations::EqualityView::Numbers(x, y) => {
            lemma_takes_keeps_scopes(
                state,
                crate::pending::PendingView::Relational(
                    if negate {
                        crate::pending::Relation::NotEqual
                    } else {
                        crate::pending::Relation::Equal
                    },
                    x,
                    y,
                ).settled(),
            );
        },
        crate::operations::EqualityView::Primitive { object, other } => {
            lemma_blocks_push(state.stack, FrameView::Equality { other, negate });
        },
        _ => {},
    }
}

proof fn lemma_applies_keeps_scopes(state: State, op: crate::ast::op::BinOp, a: Content, b: Content)
    ensures
        keeps_scopes(state, state.applies(op, a, b).state),
{
    lemma_relations_keep_scopes(state, a, b);
    match op {
        crate::ast::op::BinOp::Num(n) => {
            lemma_takes_keeps_scopes(state, crate::operations::arithmetic(n, a, b));
        },
        crate::ast::op::BinOp::Bit(n) => {
            lemma_takes_keeps_scopes(state, crate::operations::bitwise(n, a, b));
        },
        crate::ast::op::BinOp::Comp(c) => {
            lemma_compares_keeps_scopes(state, crate::operations::loosely_equal(a, b), false);
            lemma_compares_keeps_scopes(state, crate::operations::loosely_equal(a, b), true);
            lemma_blocks_push(state.stack, FrameView::Membership);
        },
        _ => {},
    }
}

proof fn lemma_relations_keep_scopes(state: State, a: Content, b: Content)
    ensures
        forall|relation: crate::pending::Relation|
            keeps_scopes(
                state,
                #[trigger] state.takes(
                    crate::pending::PendingView::Relational(
                        relation,
                        a.to_number(),
                        b.to_number(),
                    ).settled(),
                ).state,
            ),
{
    assert forall|relation: crate::pending::Relation|
        keeps_scopes(
            state,
            #[trigger] state.takes(
                crate::pending::PendingView::Relational(
                    relation,
                    a.to_number(),
                    b.to_number(),
                ).settled(),
            ).state,
        ) by {
        lemma_takes_keeps_scopes(
            state,
            crate::pending::PendingView::Relational(relation, a.to_number(), b.to_number()).settled(),
        );
    }
}

proof fn lemma_list_keeps_scopes(
    state: State,
    list: crate::ast::node::StatementList,
    function: int,
    statement: int,
    value: Content,
    first: bool,
)
    ensures
        keeps_scopes(state, state.continues_list(list, function, statement, value, first).state),
{
    lemma_blocks_push(state.stack, FrameView::List { list, function: function + 1, statement });
    lemma_blocks_push(state.stack, FrameView::List { list, function, statement: statement + 1 });
    lemma_blocks_push(
        state.stack.push(FrameView::List { list, function: function + 1, statement }),
        FrameView::External,
    );
}

/// The scope discipline of a block that goes on: as many scopes are given up
/// as blocks are left.
proof fn lemma_block_keeps_discipline(
    state: State,
    block: crate::ast::node::Block,
    declaration: int,
    statement: int,
    value: Content,
    first: bool,
)
    requires
        state.environment.len() > 1,
    ensures
        scopes_below_blocks(
            state.continues_block(block, declaration, statement, value, first).state,
        ) == scopes_below_blocks(state) - 1,
{
    lemma_blocks_push(
        state.stack,
        FrameView::Block { block, declaration: declaration + 1, statement },
    );
    lemma_blocks_push(
        state.stack,
        FrameView::Block { block, declaration, statement: statement + 1 },
    );
}

proof fn lemma_begins_keeps_discipline(state: State, node: Node)
    requires
        state.environment.len() >= 1,
    ensures
        scopes_below_blocks(state.begins(node).state) == scopes_below_blocks(state),
{
    match node {
        Node::Block(block) => {
            let entered = State {
                environment: state.environment.push(
                    crate::environment::ScopeView { function: false, bindings: Seq::empty() },
                ),
                ..state
            };
            lemma_block_keeps_discipline(entered, block, 0, 0, Content::Null, true);
        },
        Node::StatementList(list) => {
            lemma_list_keeps_scopes(state, list, 0, 0, Content::Null, true);
        },
        Node::Assign(assign) => {
            lemma_blocks_push(state.stack, FrameView::Assign { assign });
        },
        Node::BinOp(operation) => {
            lemma_blocks_push(
                state.stack,
                FrameView::Left { op: operation.op, right: *operation.rhs },
            );
            match operation.op {
                crate::ast::op::BinOp::Log(log) => {
                    lemma_blocks_push(
                        state.stack,
                        FrameView::LogicalLeft { op: log, right: *operation.rhs },
                    );
                },
                crate::ast::op::BinOp::Assign(assign) => {
                    match *operation.lhs {
                        Node::Local(local) => {
                            lemma_blocks_push(
                                state.stack,
                                FrameView::CompoundLocal {
                                    op: assign,
                                    name: local.name@,
                                    current: crate::environment::binding_value(
                                        state.environment,
                                        local.name@,
                                    ),
                                },
                            );
                        },
                        Node::GetConstField(object, name) => {
                            lemma_blocks_push(
                                state.stack,
                                FrameView::CompoundObject {
                                    op: assign,
                                    name: name@,
                                    right: *operation.rhs,
                                },
                            );
                        },
                        _ => {},
                    }
                },
                _ => {},
            }
        },
        Node::Return(Some(expression)) => {
            lemma_blocks_push(state.stack, FrameView::Return);
        },
        Node::VarDeclList(list) => {
            lemma_blocks_push(state.stack, FrameView::Var { list, index: 0 });
        },
        Node::LetDecl(list) => {
            lemma_blocks_push(state.stack, FrameView::Let { list: list@, index: 0 });
        },
        Node::ConstDecl(list) => {
            lemma_blocks_push(state.stack, FrameView::Const { list: list@, index: 0 });
        },
        Node::Const(_) => {},
        Node::Local(_) => {},
        Node::Return(None) => {},
        _ => {
            lemma_blocks_push(state.stack, FrameView::External);
        },
    }
}


proof fn lemma_resumes_keeps_discipline(state: State, frame: FrameView, v: Content)
    requires
        state.environment.len() >= 1,
        frame is Block ==> state.environment.len() > 1,
    ensures
        scopes_below_blocks(state.resumes(frame, v).state) == scopes_below_blocks(state) - if frame is Block {
            1int
        } else {
            0int
        },
{
    assert forall|name: Seq<char>, deletable: bool, scope: crate::environment::VariableScope|
        (#[trigger] crate::environment::stored(
            crate::environment::declared(state.environment, name, deletable, scope),
            name,
            v,
        )).len() == state.environment.len() by {
        crate::environment::lemma_scopes_stay(state.environment, name, deletable, scope, v);
    }
    assert forall|name: Seq<char>|
        (#[trigger] crate::environment::stored(state.environment, name, v)).len()
            == state.environment.len() by {
        crate::environment::lemma_scopes_stay(
            state.environment,
            name,
            false,
            crate::environment::VariableScope::Block,
            v,
        );
    }
    match frame {
        FrameView::Block { block, declaration, statement } => {
            lemma_block_keeps_discipline(state, block, declaration, statement, v, false);
        },
        FrameView::List { list, function, statement } => {
            lemma_list_keeps_scopes(state, list, function, statement, v, false);
        },
        FrameView::Assign { assign } => {
            match *assign.lhs {
                Node::GetConstField(object, name) => {
                    lemma_blocks_push(state.stack, FrameView::AssignMember { name: name@, value: v });
                },
                Node::GetField(object, key) => {
                    lemma_blocks_push(state.stack, FrameView::AssignKeyed { key: *key, value: v });
                },
                _ => {},
            }
        },
        FrameView::AssignMember { name, value } => {
            lemma_blocks_push(state.stack, FrameView::Yield { value });
        },
        FrameView::AssignKeyed { key, value } => {
            lemma_blocks_push(state.stack, FrameView::AssignKey { object: v, value });
        },
        FrameView::AssignKey { object, value } => {
            lemma_blocks_push(state.stack, FrameView::Yield { value });
        },
        FrameView::Left { op, right } => {
            lemma_blocks_push(state.stack, FrameView::Right { op, left: v });
        },
        FrameView::Right { op, left } => {
            lemma_applies_keeps_scopes(state, op, left, v);
        },
        FrameView::LogicalLeft { op, right } => {
            lemma_blocks_push(state.stack, FrameView::LogicalRight);
        },
        FrameView::CompoundLocal { op, name, current } => {
            lemma_blocks_push(state.stack, FrameView::StoreLocal { name });
            lemma_applies_keeps_scopes(
                state.with_frame(FrameView::StoreLocal { name }),
                crate::exec::semantics::operator_of(op),
                current,
                v,
            );
        },
        FrameView::CompoundObject { op, name, right } => {
            lemma_blocks_push(
                state.stack,
                FrameView::CompoundCurrent { op, name, right, object: v },
            );
        },
        FrameView::CompoundMember { op, name, object, current } => {
            lemma_blocks_push(state.stack, FrameView::StoreMember { name, object });
            lemma_applies_keeps_scopes(
                state.with_frame(FrameView::StoreMember { name, object }),
                crate::exec::semantics::operator_of(op),
                current,
                v,
            );
        },
        FrameView::StoreMember { name, object } => {
            lemma_blocks_push(state.stack, FrameView::Yield { value: v });
        },
        FrameView::Var { list, index } => {
            lemma_blocks_push(state.stack, FrameView::Var { list, index: index + 1 });
        },
        FrameView::Let { list, index } => {
            lemma_blocks_push(state.stack, FrameView::Let { list, index: index + 1 });
        },
        FrameView::Const { list, index } => {
            lemma_blocks_push(state.stack, FrameView::Const { list, index: index + 1 });
        },
        _ => {},
    }
}

/// No scope is leaked. Between the scopes and the blocks that are under
/// way the difference never changes: whatever a step does, it pushes a scope
/// exactly when it enters a block and pops one exactly when it leaves a
/// block, be it at the end of the block, with a `return` in flight or with
/// a thrown value.
pub proof fn lemma_step_keeps_scope_discipline(state: State, event: EventView)
    requires
        state.environment.len() > blocks(state.stack),
    ensures
        scopes_below_blocks(state.step(event).state) == scopes_below_blocks(state),
        state.step(event).state.environment.len() > blocks(state.step(event).state.stack),
{
    reveal(State::step);
    match state.control {
        ControlView::Idle => {},
        ControlView::Evaluate(node) => {
            lemma_begins_keeps_discipline(state, node);
        },
        ControlView::Value(v) => {
            if state.stack.len() > 0 {
                lemma_resumes_keeps_discipline(state.without_frame(), state.stack.last(), v);
            }
        },
        ControlView::Throw(thrown) => {},
        ControlView::Waiting => {
            if state.stack.len() > 0 {
                let base = state.without_frame();
                match (state.stack.last(), event) {
                    (FrameView::Pending(p), EventView::Float(reply)) => {
                        lemma_takes_keeps_scopes(base, p.supplied(reply));
                    },
                    (FrameView::Equality { other, negate }, EventView::Value(primitive)) => {
                        lemma_compares_keeps_scopes(
                            base,
                            crate::operations::loosely_equal(primitive, other),
                            negate,
                        );
                    },
                    (
                        FrameView::CompoundCurrent { op, name, right, object },
                        EventView::Value(current),
                    ) => {
                        lemma_blocks_push(
                            base.stack,
                            FrameView::CompoundMember { op, name, object, current },
                        );
                    },
                    _ => {},
                }
            }
        },
    }
}

/// The scope discipline holds over any number of steps that take no answer.
pub proof fn lemma_steps_keep_scope_discipline(state: State, count: nat)
    requires
        state.environment.len() > blocks(state.stack),
    ensures
        scopes_below_blocks(state.after(count)) == scopes_below_blocks(state),
    decreases count,
{
    if count > 0 {
        lemma_step_keeps_scope_discipline(state, EventView::Nothing);
        lemma_steps_keep_scope_discipline(
            state.step(EventView::Nothing).state,
            (count - 1) as nat,
        );
    }
}

/// A block runs its declarations before its statements: while a declaration
/// is left and no `return` is in flight, the declaration is what runs next.
pub proof fn lemma_declarations_before_statements(
    state: State,
    block: crate::ast::node::Block,
    declaration: int,
    statement: int,
    v: Content,
)
    requires
        0 <= declaration < block.hoistable@.len(),
        !state.is_return,
    ensures
        state.resumes(FrameView::Block { block, declaration, statement }, v).state.control
            == ControlView::Evaluate(block.hoistable@[declaration]),
        state.begins(Node::Block(block)).state.control == ControlView::Evaluate(
            block.hoistable@[0],
        ),
{
}

} // verus!
