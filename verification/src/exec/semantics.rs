//! What a step of the interpreter does, as a function from the state and
//! the event to the next state and the action.

use vstd::prelude::*;
use crate::ast::constant::Const;
use crate::ast::node::{Block, Node, StatementList};
use crate::ast::op;
use crate::ast::op::{AssignOp, BitOp, CompOp, LogOp, NumOp};
use crate::environment::{
    binding_value,
    declared,
    has_binding,
    stored,
    ScopeView,
    VariableScope,
};
use crate::exec::state::{ActionView, ControlView, EventView, FrameView, State};
use crate::operations::{
    arithmetic,
    arithmetic_defined,
    bitwise,
    bitwise_defined,
    loosely_equal,
    strictly_equal,
    EqualityView,
};
use crate::pending::{OutcomeView, PendingView, Relation};
use crate::value::{Content, Type};

verus! {

/// The next state and the action that a step hands out.
pub struct Step {
    pub state: State,
    pub action: ActionView,
}

/// The value of a literal.
pub open spec fn const_value(literal: Const) -> Content {
    match literal {
        Const::String(s) => Content::String(s@),
        Const::Num(d) => Content::Rational(d),
        Const::Int(n) => Content::Integer(n),
        Const::BigInt(n) => Content::BigInt(n@),
        Const::Bool(b) => Content::Boolean(b),
        Const::Null => Content::Null,
        Const::Undefined => Content::Undefined,
    }
}

/// The scopes without the innermost one; the global scope stays.
pub open spec fn popped(scopes: Seq<ScopeView>) -> Seq<ScopeView> {
    if scopes.len() > 1 {
        scopes.drop_last()
    } else {
        scopes
    }
}

/// What is thrown where a big integer is shifted by a count that does not
/// fit in 32 bits.
pub open spec fn size_error() -> Content {
    Content::String("RangeError: Maximum BigInt size exceeded"@)
}

/// What is thrown where a big integer is divided by zero.
pub open spec fn division_error() -> Content {
    Content::String("RangeError: Division by zero"@)
}

/// What is thrown where the right operand of `in` is no object.
pub open spec fn membership_error() -> Content {
    Content::String("TypeError: the right operand of 'in' is not an Object."@)
}

/// The operator that a compound assignment applies.
pub open spec fn operator_of(op: AssignOp) -> op::BinOp {
    match op {
        AssignOp::Add => op::BinOp::Num(NumOp::Add),
        AssignOp::Sub => op::BinOp::Num(NumOp::Sub),
        AssignOp::Mul => op::BinOp::Num(NumOp::Mul),
        AssignOp::Exp => op::BinOp::Num(NumOp::Exp),
        AssignOp::Div => op::BinOp::Num(NumOp::Div),
        AssignOp::Mod => op::BinOp::Num(NumOp::Mod),
        AssignOp::And => op::BinOp::Bit(BitOp::And),
        AssignOp::Or => op::BinOp::Bit(BitOp::Or),
        AssignOp::Xor => op::BinOp::Bit(BitOp::Xor),
        AssignOp::Shl => op::BinOp::Bit(BitOp::Shl),
        AssignOp::Shr => op::BinOp::Bit(BitOp::Shr),
    }
}

impl State {
    /// The state with another control.
    pub open spec fn with_control(self, control: ControlView) -> State {
        State { control, ..self }
    }

    /// The state with one more frame.
    pub open spec fn with_frame(self, frame: FrameView) -> State {
        State { stack: self.stack.push(frame), ..self }
    }

    /// The state without its innermost frame.
    pub open spec fn without_frame(self) -> State {
        State { stack: self.stack.drop_last(), ..self }
    }

    /// The state goes on by itself with the given control.
    pub open spec fn goes_on(self, control: ControlView) -> Step {
        Step { state: self.with_control(control), action: ActionView::Continue }
    }

    /// The state hands out an action and waits for the answer in the given
    /// frame.
    pub open spec fn asks(self, frame: FrameView, action: ActionView) -> Step {
        Step { state: self.with_frame(frame).with_control(ControlView::Waiting), action }
    }

    /// Nothing changes.
    pub open spec fn rejects(self) -> Step {
        Step { state: self, action: ActionView::Rejected }
    }

    /// What an operator came to: its value goes on, and a computation that
    /// waits hands out its request.
    pub open spec fn takes(self, outcome: OutcomeView) -> Step {
        match outcome {
            OutcomeView::Value(v) => self.goes_on(ControlView::Value(v)),
            OutcomeView::Pending(p) => match p.request() {
                Some(request) => self.asks(FrameView::Pending(p), ActionView::Float(request)),
                None => self.goes_on(ControlView::Value(p.finished())),
            },
        }
    }

    /// What an abstract equality came to. For `!=` the answer is negated.
    pub open spec fn compares(self, equality: EqualityView, negate: bool) -> Step {
        match equality {
            EqualityView::Decided(b) => self.goes_on(
                ControlView::Value(Content::Boolean(b != negate)),
            ),
            EqualityView::Numbers(x, y) => self.takes(
                PendingView::Relational(
                    if negate {
                        Relation::NotEqual
                    } else {
                        Relation::Equal
                    },
                    x,
                    y,
                ).settled(),
            ),
            EqualityView::Primitive { object, other } => self.asks(
                FrameView::Equality { other, negate },
                ActionView::ToPrimitive(object),
            ),
        }
    }

    /// A binary operator applied to the values of its operands. An
    /// arithmetic or bitwise operator without a result throws. `==` and
    /// `!=` are abstract equality, `===` and `!==` strict equality. The
    /// relational operators compare the numbers of the operands. `in` asks
    /// the object model, and throws where the right operand is no object.
    pub open spec fn applies(self, op: op::BinOp, a: Content, b: Content) -> Step {
        match op {
            op::BinOp::Num(n) => {
                if arithmetic_defined(n, a, b) {
                    self.takes(arithmetic(n, a, b))
                } else {
                    self.goes_on(ControlView::Throw(division_error()))
                }
            },
            op::BinOp::Bit(n) => {
                if bitwise_defined(n, a, b) {
                    self.takes(bitwise(n, a, b))
                } else {
                    self.goes_on(ControlView::Throw(size_error()))
                }
            },
            op::BinOp::Comp(c) => match c {
                CompOp::Equal => self.compares(loosely_equal(a, b), false),
                CompOp::NotEqual => self.compares(loosely_equal(a, b), true),
                CompOp::StrictEqual => self.goes_on(
                    ControlView::Value(Content::Boolean(strictly_equal(a, b))),
                ),
                CompOp::StrictNotEqual => self.goes_on(
                    ControlView::Value(Content::Boolean(!strictly_equal(a, b))),
                ),
                CompOp::GreaterThan => self.takes(
                    PendingView::Relational(Relation::Greater, a.to_number(), b.to_number()).settled(),
                ),
                CompOp::GreaterThanOrEqual => self.takes(
                    PendingView::Relational(
                        Relation::GreaterOrEqual,
                        a.to_number(),
                        b.to_number(),
                    ).settled(),
                ),
                CompOp::LessThan => self.takes(
                    PendingView::Relational(Relation::Less, a.to_number(), b.to_number()).settled(),
                ),
                CompOp::LessThanOrEqual => self.takes(
                    PendingView::Relational(
                        Relation::LessOrEqual,
                        a.to_number(),
                        b.to_number(),
                    ).settled(),
                ),
                CompOp::In => {
                    if b.kind() == Type::Object {
                        self.asks(FrameView::Membership, ActionView::HasProperty { object: b, key: a })
                    } else {
                        self.goes_on(ControlView::Throw(membership_error()))
                    }
                },
            },
            _ => self.goes_on(ControlView::Value(Content::Undefined)),
        }
    }

    /// A block goes on: with its next declaration, else with its next
    /// statement; with none left, or with a `return` in flight after a
    /// statement, it gives up its scope and yields `value`.
    pub open spec fn continues_block(
        self,
        block: Block,
        declaration: int,
        statement: int,
        value: Content,
        first: bool,
    ) -> Step {
        if (self.is_return && !first) || (declaration >= block.hoistable@.len() && statement
            >= block.statements@.len()) {
            State { environment: popped(self.environment), ..self }.goes_on(
                ControlView::Value(value),
            )
        } else if 0 <= declaration < block.hoistable@.len() {
            self.with_frame(
                FrameView::Block { block, declaration: declaration + 1, statement },
            ).goes_on(ControlView::Evaluate(block.hoistable@[declaration]))
        } else if 0 <= statement < block.statements@.len() {
            self.with_frame(
                FrameView::Block { block, declaration, statement: statement + 1 },
            ).goes_on(ControlView::Evaluate(block.statements@[statement]))
        } else {
            State { environment: popped(self.environment), ..self }.goes_on(
                ControlView::Value(value),
            )
        }
    }

    /// A statement list goes on: with its next function declaration, which
    /// is handed out, else with its next statement; with none left, or with
    /// a `return` in flight after a statement, it yields `value`.
    pub open spec fn continues_list(
        self,
        list: StatementList,
        function: int,
        statement: int,
        value: Content,
        first: bool,
    ) -> Step {
        if (self.is_return && !first) || (function >= list.functions@.len() && statement
            >= list.statements@.len()) {
            self.goes_on(ControlView::Value(value))
        } else if 0 <= function < list.functions@.len() {
            self.with_frame(FrameView::List { list, function: function + 1, statement }).asks(
                FrameView::External,
                ActionView::DeclareFunction(list.functions@[function]),
            )
        } else if 0 <= statement < list.statements@.len() {
            self.with_frame(FrameView::List { list, function, statement: statement + 1 }).goes_on(
                ControlView::Evaluate(list.statements@[statement]),
            )
        } else {
            self.goes_on(ControlView::Value(value))
        }
    }

    /// The state with the value bound to the name of a declaration.
    pub open spec fn declares(self, name: Seq<char>, scope: VariableScope, value: Content) -> State {
        State {
            environment: stored(declared(self.environment, name, false, scope), name, value),
            ..self
        }
    }

    /// The state with the value assigned to the name: stored in the
    /// innermost binding of the name, or, where the name is not bound, in a
    /// new binding in the scope of the function.
    pub open spec fn assigns(self, name: Seq<char>, value: Content) -> State {
        State {
            environment: if has_binding(self.environment, name) {
                stored(self.environment, name, value)
            } else {
                stored(declared(self.environment, name, true, VariableScope::Function), name, value)
            },
            ..self
        }
    }

    /// The start of the execution of a node.
    pub open spec fn begins(self, node: Node) -> Step {
        match node {
            Node::Const(literal) => self.goes_on(ControlView::Value(const_value(literal))),
            Node::Local(local) => self.goes_on(
                ControlView::Value(binding_value(self.environment, local.name@)),
            ),
            Node::Block(block) => State {
                environment: self.environment.push(
                    ScopeView { function: false, bindings: Seq::empty() },
                ),
                ..self
            }.continues_block(block, 0, 0, Content::Null, true),
            Node::StatementList(list) => self.continues_list(list, 0, 0, Content::Null, true),
            Node::Assign(assign) => self.with_frame(FrameView::Assign { assign }).goes_on(
                ControlView::Evaluate(*assign.rhs),
            ),
            Node::BinOp(operation) => match operation.op {
                op::BinOp::Log(log) => self.with_frame(
                    FrameView::LogicalLeft { op: log, right: *operation.rhs },
                ).goes_on(ControlView::Evaluate(*operation.lhs)),
                op::BinOp::Assign(assign) => match *operation.lhs {
                    Node::Local(local) => self.with_frame(
                        FrameView::CompoundLocal {
                            op: assign,
                            name: local.name@,
                            current: binding_value(self.environment, local.name@),
                        },
                    ).goes_on(ControlView::Evaluate(*operation.rhs)),
                    Node::GetConstField(object, name) => self.with_frame(
                        FrameView::CompoundObject { op: assign, name: name@, right: *operation.rhs },
                    ).goes_on(ControlView::Evaluate(*object)),
                    _ => self.goes_on(ControlView::Value(Content::Undefined)),
                },
                _ => self.with_frame(
                    FrameView::Left { op: operation.op, right: *operation.rhs },
                ).goes_on(ControlView::Evaluate(*operation.lhs)),
            },
            Node::Return(None) => State { is_return: true, ..self }.goes_on(
                ControlView::Value(Content::Undefined),
            ),
            Node::Return(Some(expression)) => self.with_frame(FrameView::Return).goes_on(
                ControlView::Evaluate(*expression),
            ),
            Node::VarDeclList(list) => {
                if list.vars@.len() == 0 {
                    self.goes_on(ControlView::Value(Content::Undefined))
                } else {
                    self.with_frame(FrameView::Var { list, index: 0 }).goes_on(
                        match list.vars@[0].init {
                            Some(init) => ControlView::Evaluate(init),
                            None => ControlView::Value(Content::Undefined),
                        },
                    )
                }
            },
            Node::LetDecl(list) => {
                if list@.len() == 0 {
                    self.goes_on(ControlView::Value(Content::Undefined))
                } else {
                    self.with_frame(FrameView::Let { list: list@, index: 0 }).goes_on(
                        match list@[0].1 {
                            Some(init) => ControlView::Evaluate(init),
                            None => ControlView::Value(Content::Undefined),
                        },
                    )
                }
            },
            Node::ConstDecl(list) => {
                if list@.len() == 0 {
                    self.goes_on(ControlView::Value(Content::Undefined))
                } else {
                    self.with_frame(FrameView::Const { list: list@, index: 0 }).goes_on(
                        ControlView::Evaluate(list@[0].1),
                    )
                }
            },
            _ => self.asks(FrameView::External, ActionView::Execute(node)),
        }
    }

    /// A value reaches a frame that has been taken off the stack, which
    /// goes on with it. The state is the one without that frame.
    pub open spec fn resumes(self, frame: FrameView, v: Content) -> Step {
        match frame {
            FrameView::Block { block, declaration, statement } => self.continues_block(
                block,
                declaration,
                statement,
                v,
                false,
            ),
            FrameView::List { list, function, statement } => self.continues_list(
                list,
                function,
                statement,
                v,
                false,
            ),
            FrameView::Assign { assign } => match *assign.lhs {
                Node::Local(local) => self.assigns(local.name@, v).goes_on(ControlView::Value(v)),
                Node::GetConstField(object, name) => self.with_frame(
                    FrameView::AssignMember { name: name@, value: v },
                ).goes_on(ControlView::Evaluate(*object)),
                Node::GetField(object, key) => self.with_frame(
                    FrameView::AssignKeyed { key: *key, value: v },
                ).goes_on(ControlView::Evaluate(*object)),
                _ => self.goes_on(ControlView::Value(v)),
            },
            FrameView::AssignMember { name, value } => self.asks(
                FrameView::Yield { value },
                ActionView::SetField { object: v, key: Content::String(name), value },
            ),
            FrameView::AssignKeyed { key, value } => self.with_frame(
                FrameView::AssignKey { object: v, value },
            ).goes_on(ControlView::Evaluate(key)),
            FrameView::AssignKey { object, value } => self.asks(
                FrameView::Yield { value },
                ActionView::SetField { object, key: v, value },
            ),
            FrameView::Left { op, right } => self.with_frame(FrameView::Right { op, left: v }).goes_on(
                ControlView::Evaluate(right),
            ),
            FrameView::Right { op, left } => self.applies(op, left, v),
            FrameView::LogicalLeft { op, right } => {
                if (op == LogOp::And) == v.is_true() {
                    self.with_frame(FrameView::LogicalRight).goes_on(ControlView::Evaluate(right))
                } else {
                    self.goes_on(ControlView::Value(Content::Boolean(v.is_true())))
                }
            },
            FrameView::LogicalRight => self.goes_on(ControlView::Value(Content::Boolean(v.is_true()))),
            FrameView::CompoundLocal { op, name, current } => self.with_frame(
                FrameView::StoreLocal { name },
            ).applies(operator_of(op), current, v),
            FrameView::StoreLocal { name } => State {
                environment: stored(self.environment, name, v),
                ..self
            }.goes_on(ControlView::Value(v)),
            FrameView::CompoundObject { op, name, right } => self.asks(
                FrameView::CompoundCurrent { op, name, right, object: v },
                ActionView::GetField { object: v, key: Content::String(name) },
            ),
            FrameView::CompoundMember { op, name, object, current } => self.with_frame(
                FrameView::StoreMember { name, object },
            ).applies(operator_of(op), current, v),
            FrameView::StoreMember { name, object } => self.asks(
                FrameView::Yield { value: v },
                ActionView::SetField { object, key: Content::String(name), value: v },
            ),
            FrameView::Return => State { is_return: true, ..self }.goes_on(ControlView::Value(v)),
            FrameView::Var { list, index } => {
                if 0 <= index < list.vars@.len() {
                    let bound = self.declares(list.vars@[index].name@, VariableScope::Function, v);
                    if index + 1 < list.vars@.len() {
                        bound.with_frame(FrameView::Var { list, index: index + 1 }).goes_on(
                            match list.vars@[index + 1].init {
                                Some(init) => ControlView::Evaluate(init),
                                None => ControlView::Value(Content::Undefined),
                            },
                        )
                    } else {
                        bound.goes_on(ControlView::Value(Content::Undefined))
                    }
                } else {
                    self.goes_on(ControlView::Value(Content::Undefined))
                }
            },
            FrameView::Let { list, index } => {
                if 0 <= index < list.len() {
                    let bound = self.declares(list[index].0@, VariableScope::Block, v);
                    if index + 1 < list.len() {
                        bound.with_frame(FrameView::Let { list, index: index + 1 }).goes_on(
                            match list[index + 1].1 {
                                Some(init) => ControlView::Evaluate(init),
                                None => ControlView::Value(Content::Undefined),
                            },
                        )
                    } else {
                        bound.goes_on(ControlView::Value(Content::Undefined))
                    }
                } else {
                    self.goes_on(ControlView::Value(Content::Undefined))
                }
            },
            FrameView::Const { list, index } => {
                if 0 <= index < list.len() {
                    let bound = self.declares(list[index].0@, VariableScope::Block, v);
                    if index + 1 < list.len() {
                        bound.with_frame(FrameView::Const { list, index: index + 1 }).goes_on(
                            ControlView::Evaluate(list[index + 1].1),
                        )
                    } else {
                        bound.goes_on(ControlView::Value(Content::Undefined))
                    }
                } else {
                    self.goes_on(ControlView::Value(Content::Undefined))
                }
            },
            _ => self.goes_on(ControlView::Value(v)),
        }
    }

    /// A value is handed on: to the innermost frame, or, with no frame
    /// left, to the driver as the result.
    pub open spec fn delivers(self, v: Content) -> Step {
        if self.stack.len() == 0 {
            Step {
                state: self.with_control(ControlView::Idle),
                action: ActionView::Finished(Ok(v)),
            }
        } else {
            self.without_frame().resumes(self.stack.last(), v)
        }
    }

    /// A thrown value unwinds one frame; a block that is left gives up its
    /// scope. With no frame left the driver gets what was thrown.
    pub open spec fn unwinds(self, thrown: Content) -> Step {
        if self.stack.len() == 0 {
            Step {
                state: self.with_control(ControlView::Idle),
                action: ActionView::Finished(Err(thrown)),
            }
        } else {
            match self.stack.last() {
                FrameView::Block { .. } => State {
                    environment: popped(self.environment),
                    ..self.without_frame()
                }.goes_on(ControlView::Throw(thrown)),
                _ => self.without_frame().goes_on(ControlView::Throw(thrown)),
            }
        }
    }

    /// The answer to the action that was handed out reaches the frame that
    /// waits for it. An event that is no such answer is rejected.
    pub open spec fn receives(self, event: EventView) -> Step {
        if self.stack.len() == 0 {
            self.rejects()
        } else {
            let base = self.without_frame();
            match (self.stack.last(), event) {
                (FrameView::Pending(p), EventView::Float(reply)) => {
                    if p.accepts(reply) {
                        base.takes(p.supplied(reply))
                    } else {
                        self.rejects()
                    }
                },
                (FrameView::Equality { other, negate }, EventView::Value(primitive)) => base.compares(
                    loosely_equal(primitive, other),
                    negate,
                ),
                (FrameView::Membership, EventView::Bool(b)) => base.goes_on(
                    ControlView::Value(Content::Boolean(b)),
                ),
                (FrameView::Yield { value }, EventView::Done) => base.goes_on(
                    ControlView::Value(value),
                ),
                (
                    FrameView::CompoundCurrent { op, name, right, object },
                    EventView::Value(current),
                ) => base.with_frame(FrameView::CompoundMember { op, name, object, current }).goes_on(
                    ControlView::Evaluate(right),
                ),
                (FrameView::External, EventView::Completed { result, returned }) => {
                    let after = State { is_return: self.is_return || returned, ..base };
                    match result {
                        Ok(v) => after.goes_on(ControlView::Value(v)),
                        Err(thrown) => after.goes_on(ControlView::Throw(thrown)),
                    }
                },
                _ => self.rejects(),
            }
        }
    }

    /// One step of the interpreter.
    #[verifier::opaque]
    pub open spec fn step(self, event: EventView) -> Step {
        match self.control {
            ControlView::Idle => self.rejects(),
            ControlView::Evaluate(node) => self.begins(node),
            ControlView::Value(v) => self.delivers(v),
            ControlView::Throw(thrown) => self.unwinds(thrown),
            ControlView::Waiting => self.receives(event),
        }
    }
}


impl State {
    /// The steps that the interpreter makes by itself: it steps until a step
    /// hands out something other than `Continue`, but makes no more than
    /// `limit` steps after the first.
    pub open spec fn run(self, event: EventView, limit: nat) -> Step
        decreases limit,
    {
        let first = self.step(event);
        if first.action is Continue && limit > 0 {
            first.state.run(EventView::Nothing, (limit - 1) as nat)
        } else {
            first
        }
    }

    /// How the interpreter goes on by itself after a step: with up to
    /// `limit` more steps while the steps hand out `Continue`.
    pub open spec fn goes_on_from(step: Step, limit: nat) -> Step {
        if step.action is Continue && limit > 0 {
            step.state.run(EventView::Nothing, (limit - 1) as nat)
        } else {
            step
        }
    }

    /// The state after `count` steps that take no answer.
    pub open spec fn after(self, count: nat) -> State
        decreases count,
    {
        if count == 0 {
            self
        } else {
            self.step(EventView::Nothing).state.after((count - 1) as nat)
        }
    }

    /// Whether the innermost `count` frames are blocks.
    pub open spec fn in_blocks(self, count: nat) -> bool {
        &&& count <= self.stack.len()
        &&& forall|i: int|
            self.stack.len() - count <= i < self.stack.len() ==> (#[trigger] self.stack[i]) is Block
    }
}

} // verus!
