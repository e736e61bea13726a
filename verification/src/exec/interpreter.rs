//! The steps of the interpreter.

use vstd::prelude::*;
use crate::ast::constant::Const;
use crate::ast::node::{Assign, BinOp, Block, Node, StatementList};
use crate::ast::op;
use crate::ast::op::{AssignOp, BitOp, CompOp, LogOp, NumOp};
use crate::environment::{LexicalEnvironment, Scope, ScopeView, VariableScope};
use crate::exec::semantics::{const_value, operator_of, Step};
use crate::exec::state::{Action, Control, ControlView, Event, Frame, Interpreter, State};
use crate::operations::{
    apply_arithmetic,
    apply_bitwise,
    arithmetic,
    arithmetic_defined,
    bitwise,
    bitwise_defined,
    is_arithmetic_defined,
    is_bitwise_defined,
    Equality,
};
use crate::pending::{Outcome, OutcomeView, Pending, Relation};
use crate::value::{Content, Value};

verus! {

fn is_continue<'a>(action: &Action<'a>) -> (r: bool)
    ensures
        r == (action@ is Continue),
{
    match action {
        Action::Continue => true,
        _ => false,
    }
}

/// The value of a literal.
pub fn value_of_const(literal: &Const) -> (r: Value)
    ensures
        r@ == const_value(*literal),
{
    match literal {
        Const::String(s) => Value::string(s.clone()),
        Const::Num(d) => Value::rational(*d),
        Const::Int(n) => Value::integer(*n),
        Const::BigInt(n) => Value::bigint(n.clone()),
        Const::Bool(b) => Value::boolean(*b),
        Const::Null => Value::null(),
        Const::Undefined => Value::undefined(),
    }
}

/// The operator that a compound assignment applies.
pub fn assignment_operator(op: AssignOp) -> (r: op::BinOp)
    ensures
        r == operator_of(op),
{
    match op {
        AssignOp::Add => op::BinOp::Num(NumOp::Add),
        AssignOp::Sub => op::BinOp::Num(NumOp::Sub),
        AssignOp::Mul => op::BinOp::Num(NumOp::Mul),
        AssignOp::Exp => op::BinOp::Num(NumOp::Exp),
        AssignOp::Div => op::BinOp::Num(NumOp::Div),
        AssignOp::Mod => op::BinOp::Num(NumOp::Mod),
        AssignOp::And => op::BinOp::Bit(BitOp::And),
        AssignOp::Or => op::BinOp::Bit(BitOp::Or),
        AssignOp::Xor => op::BinOp::Bit(BitOp::Xor),
        AssignOp::Shl => op::BinOp::Bit(BitOp::Shl),
        AssignOp::Shr => op::BinOp::Bit(BitOp::Shr),
    }
}

/// Whether the operator of a compound assignment has a result on the two
/// values.
pub open spec fn compound_defined(op: AssignOp, a: Content, b: Content) -> bool {
    match operator_of(op) {
        op::BinOp::Num(n) => arithmetic_defined(n, a, b),
        op::BinOp::Bit(n) => bitwise_defined(n, a, b),
        _ => true,
    }
}

/// What the operator of a compound assignment gives on the value that the
/// target has and the value of the right-hand side.
pub open spec fn compound(op: AssignOp, a: Content, b: Content) -> OutcomeView {
    match operator_of(op) {
        op::BinOp::Num(n) => arithmetic(n, a, b),
        op::BinOp::Bit(n) => bitwise(n, a, b),
        _ => OutcomeView::Value(Content::Undefined),
    }
}

/// Whether the operator of a compound assignment has a result on the two
/// values.
pub fn is_compound_defined(op: AssignOp, a: &Value, b: &Value) -> (r: bool)
    ensures
        r == compound_defined(op, a@, b@),
{
    match assignment_operator(op) {
        op::BinOp::Num(n) => is_arithmetic_defined(n, a, b),
        op::BinOp::Bit(n) => is_bitwise_defined(n, a, b),
        _ => true,
    }
}

impl BinOp {
    /// Applies the operator of a compound assignment to the value that the
    /// target has and the value of the right-hand side.
    pub fn run_assign(op: AssignOp, v_a: &Value, v_b: &Value) -> (r: Outcome)
        requires
            compound_defined(op, v_a@, v_b@),
        ensures
            r@ == compound(op, v_a@, v_b@),
    {
        match assignment_operator(op) {
            op::BinOp::Num(n) => apply_arithmetic(n, v_a, v_b),
            op::BinOp::Bit(n) => apply_bitwise(n, v_a, v_b),
            _ => Outcome::Value(Value::undefined()),
        }
    }
}

impl<'a> Interpreter<'a> {
    /// A new interpreter: the global scope alone, no `return` in flight,
    /// nothing loaded.
    pub fn new() -> (r: Interpreter<'a>)
        ensures
            r@ == (State {
                environment: seq![ScopeView { function: true, bindings: Seq::empty() }],
                is_return: false,
                stack: Seq::empty(),
                control: ControlView::Idle,
            }),
    {
        let r = Interpreter {
            environment: LexicalEnvironment::new(),
            is_return: false,
            stack: Vec::new(),
            control: Control::Idle,
        };
        assert(r@.stack =~= Seq::empty());
        r
    }

    /// An interpreter over the given environment, with nothing loaded.
    pub fn with_environment(environment: LexicalEnvironment) -> (r: Interpreter<'a>)
        ensures
            r@ == (State {
                environment: environment@,
                is_return: false,
                stack: Seq::empty(),
                control: ControlView::Idle,
            }),
    {
        let r = Interpreter {
            environment,
            is_return: false,
            stack: Vec::new(),
            control: Control::Idle,
        };
        assert(r@.stack =~= Seq::empty());
        r
    }

    /// Gives up the interpreter for its environment.
    pub fn into_environment(self) -> (r: LexicalEnvironment)
        ensures
            r@ == self@.environment,
    {
        self.environment
    }

    /// Whether a `return` is in flight.
    pub fn is_return(&self) -> (r: bool)
        ensures
            r == self@.is_return,
    {
        self.is_return
    }

    /// Clears the signal of a `return` in flight, as the call of a function
    /// does when the function has returned.
    pub fn clear_return(&mut self)
        ensures
            final(self)@ == (State { is_return: false, ..old(self)@ }),
    {
        self.is_return = false;
    }

    /// Whether nothing is loaded.
    pub fn is_idle(&self) -> (r: bool)
        ensures
            r == (self@.control is Idle),
    {
        match self.control {
            Control::Idle => true,
            _ => false,
        }
    }

    /// Loads a node for execution. Nothing happens, and `false` is
    /// returned, while another node is under way.
    pub fn load(&mut self, node: &'a Node) -> (r: bool)
        ensures
            r == (old(self)@.control is Idle),
            r ==> final(self)@ == old(self)@.with_control(ControlView::Evaluate(*node)),
            !r ==> final(self)@ == old(self)@,
    {
        if self.is_idle() {
            self.control = Control::Evaluate(node);
            true
        } else {
            false
        }
    }

    fn push_frame(&mut self, frame: Frame<'a>)
        ensures
            final(self)@ == old(self)@.with_frame(frame@),
    {
        self.stack.push(frame);
        assert(self@.stack =~= old(self)@.stack.push(frame@));
    }

    fn pop_frame(&mut self) -> (r: Option<Frame<'a>>)
        ensures
            match r {
                Some(frame) => old(self)@.stack.len() > 0 && frame@ == old(self)@.stack.last()
                    && final(self)@ == old(self)@.without_frame(),
                None => old(self)@.stack.len() == 0 && final(self)@ == old(self)@,
            },
    {
        let r = self.stack.pop();
        proof {
            if r.is_some() {
                assert(self@.stack =~= old(self)@.stack.drop_last());
            } else {
                assert(self@.stack =~= old(self)@.stack);
            }
        }
        r
    }

    fn go_on(&mut self, control: Control<'a>) -> (action: Action<'a>)
        ensures
            final(self)@ == old(self)@.goes_on(control@).state,
            action@ == old(self)@.goes_on(control@).action,
    {
        self.control = control;
        Action::Continue
    }

    fn ask(&mut self, frame: Frame<'a>, action: Action<'a>) -> (r: Action<'a>)
        ensures
            final(self)@ == old(self)@.asks(frame@, action@).state,
            r@ == old(self)@.asks(frame@, action@).action,
    {
        self.push_frame(frame);
        self.control = Control::Waiting;
        action
    }

    fn take(&mut self, outcome: Outcome) -> (action: Action<'a>)
        ensures
            final(self)@ == old(self)@.takes(outcome@).state,
            action@ == old(self)@.takes(outcome@).action,
    {
        match outcome {
            Outcome::Value(v) => self.go_on(Control::Value(v)),
            Outcome::Pending(p) => {
                match p.request() {
                    Some(request) => self.ask(Frame::Pending(p), Action::Float(request)),
                    None => {
                        match p.settle() {
                            Outcome::Value(v) => self.go_on(Control::Value(v)),
                            Outcome::Pending(_) => self.go_on(Control::Value(Value::undefined())),
                        }
                    },
                }
            },
        }
    }

    fn compare(&mut self, equality: Equality, negate: bool) -> (action: Action<'a>)
        ensures
            final(self)@ == old(self)@.compares(equality@, negate).state,
            action@ == old(self)@.compares(equality@, negate).action,
    {
        match equality {
            Equality::Decided(b) => self.go_on(Control::Value(Value::boolean(b != negate))),
            Equality::Numbers(x, y) => {
                let relation = if negate {
                    Relation::NotEqual
                } else {
                    Relation::Equal
                };
                let outcome = Pending::Relational(relation, x, y).settle();
                self.take(outcome)
            },
            Equality::Primitive { object, other } => self.ask(
                Frame::Equality { other, negate },
                Action::ToPrimitive(object),
            ),
        }
    }

    fn relate(&mut self, relation: Relation, a: &Value, b: &Value) -> (action: Action<'a>)
        ensures
            final(self)@ == old(self)@.takes(
                crate::pending::PendingView::Relational(
                    relation,
                    a@.to_number(),
                    b@.to_number(),
                ).settled(),
            ).state,
            action@ == old(self)@.takes(
                crate::pending::PendingView::Relational(
                    relation,
                    a@.to_number(),
                    b@.to_number(),
                ).settled(),
            ).action,
    {
        let outcome = Pending::Relational(relation, a.to_number(), b.to_number()).settle();
        self.take(outcome)
    }

    fn apply(&mut self, op: op::BinOp, a: Value, b: Value) -> (action: Action<'a>)
        ensures
            final(self)@ == old(self)@.applies(op, a@, b@).state,
            action@ == old(self)@.applies(op, a@, b@).action,
    {
        match op {
            op::BinOp::Num(n) => {
                if is_arithmetic_defined(n, &a, &b) {
                    let outcome = apply_arithmetic(n, &a, &b);
                    self.take(outcome)
                } else {
                    self.go_on(
                        Control::Throw(
                            Value::string(String::from_str("RangeError: Division by zero")),
                        ),
                    )
                }
            },
            op::BinOp::Bit(n) => {
                if is_bitwise_defined(n, &a, &b) {
                    let outcome = apply_bitwise(n, &a, &b);
                    self.take(outcome)
                } else {
                    self.go_on(
                        Control::Throw(
                            Value::string(
                                String::from_str("RangeError: Maximum BigInt size exceeded"),
                            ),
                        ),
                    )
                }
            },
            op::BinOp::Comp(c) => match c {
                CompOp::Equal => {
                    let equality = a.equals(&b);
                    self.compare(equality, false)
                },
                CompOp::NotEqual => {
                    let equality = a.equals(&b);
                    self.compare(equality, true)
                },
                CompOp::StrictEqual => self.go_on(
                    Control::Value(Value::boolean(a.strict_equals(&b))),
                ),
                CompOp::StrictNotEqual => self.go_on(
                    Control::Value(Value::boolean(!a.strict_equals(&b))),
                ),
                CompOp::GreaterThan => self.relate(Relation::Greater, &a, &b),
                CompOp::GreaterThanOrEqual => self.relate(Relation::GreaterOrEqual, &a, &b),
                CompOp::LessThan => self.relate(Relation::Less, &a, &b),
                CompOp::LessThanOrEqual => self.relate(Relation::LessOrEqual, &a, &b),
                CompOp::In => {
                    if b.is_object() {
                        self.ask(Frame::Membership, Action::HasProperty { object: b, key: a })
                    } else {
                        self.go_on(
                            Control::Throw(
                                Value::string(
                                    String::from_str(
                                        "TypeError: the right operand of 'in' is not an Object.",
                                    ),
                                ),
                            ),
                        )
                    }
                },
            },
            _ => self.go_on(Control::Value(Value::undefined())),
        }
    }

    /// Applies the operator of a compound assignment, and throws where it
    /// has no result.
    fn combine(&mut self, op: AssignOp, a: Value, b: Value) -> (action: Action<'a>)
        ensures
            final(self)@ == old(self)@.applies(operator_of(op), a@, b@).state,
            action@ == old(self)@.applies(operator_of(op), a@, b@).action,
    {
        if is_compound_defined(op, &a, &b) {
            let outcome = BinOp::run_assign(op, &a, &b);
            self.take(outcome)
        } else {
            self.apply(assignment_operator(op), a, b)
        }
    }

    fn leave_scope(&mut self)
        ensures
            final(self)@ == (State {
                environment: crate::exec::semantics::popped(old(self)@.environment),
                ..old(self)@
            }),
    {
        let _ = self.environment.pop();
    }

    fn continue_block(
        &mut self,
        block: &'a Block,
        declaration: usize,
        statement: usize,
        value: Value,
        first: bool,
    ) -> (action: Action<'a>)
        ensures
            final(self)@ == old(self)@.continues_block(
                *block,
                declaration as int,
                statement as int,
                value@,
                first,
            ).state,
            action@ == old(self)@.continues_block(
                *block,
                declaration as int,
                statement as int,
                value@,
                first,
            ).action,
    {
        if (self.is_return && !first) || (declaration >= block.hoistable.len() && statement
            >= block.statements.len()) {
            self.leave_scope();
            self.go_on(Control::Value(value))
        } else if declaration < block.hoistable.len() {
            self.push_frame(Frame::Block { block, declaration: declaration + 1, statement });
            self.go_on(Control::Evaluate(&block.hoistable[declaration]))
        } else {
            self.push_frame(Frame::Block { block, declaration, statement: statement + 1 });
            self.go_on(Control::Evaluate(&block.statements[statement]))
        }
    }

    fn continue_list(
        &mut self,
        list: &'a StatementList,
        function: usize,
        statement: usize,
        value: Value,
        first: bool,
    ) -> (action: Action<'a>)
        ensures
            final(self)@ == old(self)@.continues_list(
                *list,
                function as int,
                statement as int,
                value@,
                first,
            ).state,
            action@ == old(self)@.continues_list(
                *list,
                function as int,
                statement as int,
                value@,
                first,
            ).action,
    {
        if (self.is_return && !first) || (function >= list.functions.len() && statement
            >= list.statements.len()) {
            self.go_on(Control::Value(value))
        } else if function < list.functions.len() {
            self.push_frame(Frame::List { list, function: function + 1, statement });
            self.ask(Frame::External, Action::DeclareFunction(&list.functions[function]))
        } else {
            self.push_frame(Frame::List { list, function, statement: statement + 1 });
            self.go_on(Control::Evaluate(&list.statements[statement]))
        }
    }

    fn declare(&mut self, name: &String, scope: VariableScope, value: Value)
        ensures
            final(self)@ == old(self)@.declares(name@, scope, value@),
    {
        self.environment.create_mutable_binding(name.clone(), false, scope);
        self.environment.initialize_binding(name.as_str(), value);
    }

    fn assign(&mut self, name: &String, value: Value)
        ensures
            final(self)@ == old(self)@.assigns(name@, value@),
    {
        if self.environment.has_binding(name.as_str()) {
            self.environment.set_mutable_binding(name.as_str(), value, true);
        } else {
            self.environment.create_mutable_binding(name.clone(), true, VariableScope::Function);
            self.environment.initialize_binding(name.as_str(), value);
        }
    }
}


impl Block {
    /// Starts the block: pushes a scope for it and goes on with what runs
    /// first. The scope is popped when the block is left, whichever way.
    pub fn run<'a>(&'a self, interpreter: &mut Interpreter<'a>) -> (action: Action<'a>)
        ensures
            final(interpreter)@ == old(interpreter)@.begins(Node::Block(*self)).state,
            action@ == old(interpreter)@.begins(Node::Block(*self)).action,
    {
        interpreter.environment.push(Scope::new_declarative());
        interpreter.continue_block(self, 0, 0, Value::null(), true)
    }
}

impl StatementList {
    /// Starts the statement list.
    pub fn run<'a>(&'a self, interpreter: &mut Interpreter<'a>) -> (action: Action<'a>)
        ensures
            final(interpreter)@ == old(interpreter)@.begins(Node::StatementList(*self)).state,
            action@ == old(interpreter)@.begins(Node::StatementList(*self)).action,
    {
        interpreter.continue_list(self, 0, 0, Value::null(), true)
    }
}

impl Assign {
    /// Starts the assignment: its right-hand side is evaluated first.
    pub fn run<'a>(&'a self, interpreter: &mut Interpreter<'a>) -> (action: Action<'a>)
        ensures
            final(interpreter)@ == old(interpreter)@.begins(Node::Assign(*self)).state,
            action@ == old(interpreter)@.begins(Node::Assign(*self)).action,
    {
        interpreter.push_frame(Frame::Assign { assign: self });
        interpreter.go_on(Control::Evaluate(self.rhs()))
    }
}

impl BinOp {
    /// Starts the operator. A logical operator evaluates its left operand
    /// and decides then whether the right one is evaluated. A compound
    /// assignment reads its target before it evaluates its right-hand
    /// side. Any other operator evaluates its left operand, then its right
    /// one.
    pub fn run<'a>(&'a self, interpreter: &mut Interpreter<'a>) -> (action: Action<'a>)
        ensures
            final(interpreter)@ == old(interpreter)@.begins(Node::BinOp(*self)).state,
            action@ == old(interpreter)@.begins(Node::BinOp(*self)).action,
    {
        match self.op {
            op::BinOp::Log(log) => {
                interpreter.push_frame(Frame::LogicalLeft { op: log, right: self.rhs() });
                interpreter.go_on(Control::Evaluate(self.lhs()))
            },
            op::BinOp::Assign(assign) => match self.lhs() {
                Node::Local(local) => {
                    let current = interpreter.environment.get_binding_value(local.name.as_str());
                    interpreter.push_frame(
                        Frame::CompoundLocal { op: assign, name: &local.name, current },
                    );
                    interpreter.go_on(Control::Evaluate(self.rhs()))
                },
                Node::GetConstField(object, name) => {
                    interpreter.push_frame(
                        Frame::CompoundObject { op: assign, name, right: self.rhs() },
                    );
                    interpreter.go_on(Control::Evaluate(&**object))
                },
                _ => interpreter.go_on(Control::Value(Value::undefined())),
            },
            _ => {
                interpreter.push_frame(Frame::Left { op: self.op, right: self.rhs() });
                interpreter.go_on(Control::Evaluate(self.lhs()))
            },
        }
    }
}

impl<'a> Interpreter<'a> {
    /// Starts the execution of a node.
    pub fn begin(&mut self, node: &'a Node) -> (action: Action<'a>)
        ensures
            final(self)@ == old(self)@.begins(*node).state,
            action@ == old(self)@.begins(*node).action,
    {
        match node {
            Node::Const(literal) => self.go_on(Control::Value(value_of_const(literal))),
            Node::Local(local) => {
                let value = self.environment.get_binding_value(local.name.as_str());
                self.go_on(Control::Value(value))
            },
            Node::Block(block) => block.run(self),
            Node::StatementList(list) => list.run(self),
            Node::Assign(assign) => assign.run(self),
            Node::BinOp(operation) => operation.run(self),
            Node::Return(None) => {
                self.is_return = true;
                self.go_on(Control::Value(Value::undefined()))
            },
            Node::Return(Some(expression)) => {
                self.push_frame(Frame::Return);
                self.go_on(Control::Evaluate(&**expression))
            },
            Node::VarDeclList(list) => {
                if list.vars.len() == 0 {
                    self.go_on(Control::Value(Value::undefined()))
                } else {
                    self.push_frame(Frame::Var { list, index: 0 });
                    match &list.vars[0].init {
                        Some(init) => self.go_on(Control::Evaluate(init)),
                        None => self.go_on(Control::Value(Value::undefined())),
                    }
                }
            },
            Node::LetDecl(list) => {
                if list.len() == 0 {
                    self.go_on(Control::Value(Value::undefined()))
                } else {
                    self.push_frame(Frame::Let { list, index: 0 });
                    match &list[0].1 {
                        Some(init) => self.go_on(Control::Evaluate(init)),
                        None => self.go_on(Control::Value(Value::undefined())),
                    }
                }
            },
            Node::ConstDecl(list) => {
                if list.len() == 0 {
                    self.go_on(Control::Value(Value::undefined()))
                } else {
                    self.push_frame(Frame::Const { list, index: 0 });
                    self.go_on(Control::Evaluate(&list[0].1))
                }
            },
            _ => self.ask(Frame::External, Action::Execute(node)),
        }
    }

    /// Hands a value to a frame that has been taken off the stack.
    pub fn resume(&mut self, frame: Frame<'a>, v: Value) -> (action: Action<'a>)
        ensures
            final(self)@ == old(self)@.resumes(frame@, v@).state,
            action@ == old(self)@.resumes(frame@, v@).action,
    {
        match frame {
            Frame::Block { block, declaration, statement } => self.continue_block(
                block,
                declaration,
                statement,
                v,
                false,
            ),
            Frame::List { list, function, statement } => self.continue_list(
                list,
                function,
                statement,
                v,
                false,
            ),
            Frame::Assign { assign } => match assign.lhs() {
                Node::Local(local) => {
                    self.assign(&local.name, v.share());
                    self.go_on(Control::Value(v))
                },
                Node::GetConstField(object, name) => {
                    self.push_frame(Frame::AssignMember { name, value: v });
                    self.go_on(Control::Evaluate(&**object))
                },
                Node::GetField(object, key) => {
                    self.push_frame(Frame::AssignKeyed { key: &**key, value: v });
                    self.go_on(Control::Evaluate(&**object))
                },
                _ => self.go_on(Control::Value(v)),
            },
            Frame::AssignMember { name, value } => {
                let written = value.share();
                self.ask(
                    Frame::Yield { value },
                    Action::SetField { object: v, key: Value::string(name.clone()), value: written },
                )
            },
            Frame::AssignKeyed { key, value } => {
                self.push_frame(Frame::AssignKey { object: v, value });
                self.go_on(Control::Evaluate(key))
            },
            Frame::AssignKey { object, value } => {
                let written = value.share();
                self.ask(Frame::Yield { value }, Action::SetField { object, key: v, value: written })
            },
            Frame::Left { op, right } => {
                self.push_frame(Frame::Right { op, left: v });
                self.go_on(Control::Evaluate(right))
            },
            Frame::Right { op, left } => self.apply(op, left, v),
            Frame::LogicalLeft { op, right } => {
                let truth = v.is_true();
                let conjunction = match op {
                    LogOp::And => true,
                    LogOp::Or => false,
                };
                if conjunction == truth {
                    self.push_frame(Frame::LogicalRight);
                    self.go_on(Control::Evaluate(right))
                } else {
                    self.go_on(Control::Value(Value::boolean(truth)))
                }
            },
            Frame::LogicalRight => self.go_on(Control::Value(Value::boolean(v.is_true()))),
            Frame::CompoundLocal { op, name, current } => {
                self.push_frame(Frame::StoreLocal { name });
                self.combine(op, current, v)
            },
            Frame::StoreLocal { name } => {
                self.environment.set_mutable_binding(name.as_str(), v.share(), true);
                self.go_on(Control::Value(v))
            },
            Frame::CompoundObject { op, name, right } => {
                let object = v.share();
                self.ask(
                    Frame::CompoundCurrent { op, name, right, object },
                    Action::GetField { object: v, key: Value::string(name.clone()) },
                )
            },
            Frame::CompoundMember { op, name, object, current } => {
                self.push_frame(Frame::StoreMember { name, object });
                self.combine(op, current, v)
            },
            Frame::StoreMember { name, object } => {
                let written = v.share();
                self.ask(
                    Frame::Yield { value: v },
                    Action::SetField { object, key: Value::string(name.clone()), value: written },
                )
            },
            Frame::Return => {
                self.is_return = true;
                self.go_on(Control::Value(v))
            },
            Frame::Var { list, index } => {
                if index < list.vars.len() {
                    self.declare(&list.vars[index].name, VariableScope::Function, v);
                    if index + 1 < list.vars.len() {
                        self.push_frame(Frame::Var { list, index: index + 1 });
                        match &list.vars[index + 1].init {
                            Some(init) => self.go_on(Control::Evaluate(init)),
                            None => self.go_on(Control::Value(Value::undefined())),
                        }
                    } else {
                        self.go_on(Control::Value(Value::undefined()))
                    }
                } else {
                    self.go_on(Control::Value(Value::undefined()))
                }
            },
            Frame::Let { list, index } => {
                if index < list.len() {
                    self.declare(&list[index].0, VariableScope::Block, v);
                    if index + 1 < list.len() {
                        self.push_frame(Frame::Let { list, index: index + 1 });
                        match &list[index + 1].1 {
                            Some(init) => self.go_on(Control::Evaluate(init)),
                            None => self.go_on(Control::Value(Value::undefined())),
                        }
                    } else {
                        self.go_on(Control::Value(Value::undefined()))
                    }
                } else {
                    self.go_on(Control::Value(Value::undefined()))
                }
            },
            Frame::Const { list, index } => {
                if index < list.len() {
                    self.declare(&list[index].0, VariableScope::Block, v);
                    if index + 1 < list.len() {
                        self.push_frame(Frame::Const { list, index: index + 1 });
                        self.go_on(Control::Evaluate(&list[index + 1].1))
                    } else {
                        self.go_on(Control::Value(Value::undefined()))
                    }
                } else {
                    self.go_on(Control::Value(Value::undefined()))
                }
            },
            _ => self.go_on(Control::Value(v)),
        }
    }

    /// Hands a value on: to the innermost frame, or, with no frame left, to
    /// the driver as the result.
    pub fn deliver(&mut self, v: Value) -> (action: Action<'a>)
        ensures
            final(self)@ == old(self)@.delivers(v@).state,
            action@ == old(self)@.delivers(v@).action,
    {
        match self.pop_frame() {
            Some(frame) => self.resume(frame, v),
            None => {
                self.control = Control::Idle;
                Action::Finished(Ok(v))
            },
        }
    }

    /// Unwinds one frame with a thrown value.
    pub fn unwind(&mut self, thrown: Value) -> (action: Action<'a>)
        ensures
            final(self)@ == old(self)@.unwinds(thrown@).state,
            action@ == old(self)@.unwinds(thrown@).action,
    {
        match self.pop_frame() {
            Some(Frame::Block { .. }) => {
                self.leave_scope();
                self.go_on(Control::Throw(thrown))
            },
            Some(_) => self.go_on(Control::Throw(thrown)),
            None => {
                self.control = Control::Idle;
                Action::Finished(Err(thrown))
            },
        }
    }

    /// Takes the answer to the action that was handed out.
    pub fn receive(&mut self, event: Event) -> (action: Action<'a>)
        ensures
            final(self)@ == old(self)@.receives(event@).state,
            action@ == old(self)@.receives(event@).action,
    {
        match self.pop_frame() {
            None => Action::Rejected,
            Some(frame) => {
                match (frame, event) {
                    (Frame::Pending(p), Event::Float(reply)) => {
                        if p.accepts(&reply) {
                            let outcome = p.supply(reply);
                            self.take(outcome)
                        } else {
                            self.push_frame(Frame::Pending(p));
                            assert(self@.stack =~= old(self)@.stack);
                            Action::Rejected
                        }
                    },
                    (Frame::Equality { other, negate }, Event::Value(primitive)) => {
                        let equality = primitive.equals(&other);
                        self.compare(equality, negate)
                    },
                    (Frame::Membership, Event::Bool(b)) => self.go_on(
                        Control::Value(Value::boolean(b)),
                    ),
                    (Frame::Yield { value }, Event::Done) => self.go_on(Control::Value(value)),
                    (Frame::CompoundCurrent { op, name, right, object }, Event::Value(current)) => {
                        self.push_frame(Frame::CompoundMember { op, name, object, current });
                        self.go_on(Control::Evaluate(right))
                    },
                    (Frame::External, Event::Completed { result, returned }) => {
                        if returned {
                            self.is_return = true;
                        }
                        match result {
                            Ok(v) => self.go_on(Control::Value(v)),
                            Err(thrown) => self.go_on(Control::Throw(thrown)),
                        }
                    },
                    (frame, _) => {
                        self.push_frame(frame);
                        assert(self@.stack =~= old(self)@.stack);
                        Action::Rejected
                    },
                }
            },
        }
    }

    /// What is done next, for a step to take up.
    fn current(&self) -> (r: Control<'a>)
        ensures
            r@ == self@.control,
    {
        match &self.control {
            Control::Idle => Control::Idle,
            Control::Evaluate(node) => Control::Evaluate(*node),
            Control::Value(v) => Control::Value(v.share()),
            Control::Throw(v) => Control::Throw(v.share()),
            Control::Waiting => Control::Waiting,
        }
    }

    /// Steps until a step hands out something other than `Continue`, but
    /// makes no more than `limit` steps after the first. The event is the
    /// answer to the action that was handed out before.
    pub fn advance(&mut self, event: Event, limit: usize) -> (action: Action<'a>)
        ensures
            final(self)@ == old(self)@.run(event@, limit as nat).state,
            action@ == old(self)@.run(event@, limit as nat).action,
    {
        let mut action = self.step(event);
        let mut left = limit;
        while left > 0 && is_continue(&action)
            invariant
                State::goes_on_from(Step { state: self@, action: action@ }, left as nat) == old(
                    self,
                )@.run(event@, limit as nat),
            decreases left,
        {
            action = self.step(Event::Nothing);
            left = left - 1;
        }
        action
    }

    /// One step. The event is the answer to the action of the step before;
    /// a step that is not waiting for an answer takes no notice of it.
    pub fn step(&mut self, event: Event) -> (action: Action<'a>)
        ensures
            final(self)@ == old(self)@.step(event@).state,
            action@ == old(self)@.step(event@).action,
    {
        proof {
            reveal(State::step);
        }
        match self.current() {
            Control::Idle => Action::Rejected,
            Control::Evaluate(node) => self.begin(node),
            Control::Value(v) => self.deliver(v),
            Control::Throw(thrown) => self.unwind(thrown),
            Control::Waiting => self.receive(event),
        }
    }
}

} // verus!
