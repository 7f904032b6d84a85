//! The tree of a classical expression.

use vstd::prelude::*;
use crate::clexpr::op::ClOp;
use crate::codec::{
    agrees, collect, lemma_collect_all_ok, lemma_collect_prefix_err, lemma_collect_step, lift, put,
    put_spec, required, required_spec, Codec, DecodeError, DeepCopy, ErrorView, PathStep,
};
use crate::json::{group_field, lemma_part_decreases, part, str_eq, Fields, Json, JsonView};

verus! {

/// A node of a classical expression: an operation and what it is applied to.
#[derive(Debug, PartialEq)]
#[non_exhaustive]
pub struct ClOperator {
    /// The operation.
    pub op: ClOp,
    /// Its arguments, in order.
    pub args: Vec<ClArgument>,
}

/// One argument of a node.
#[derive(Debug, PartialEq)]
#[non_exhaustive]
pub enum ClArgument {
    /// A leaf: a variable or a constant.
    Terminal(ClTerminal),
    /// A nested expression.
    Expression(Box<ClOperator>),
}

/// A leaf of a classical expression.
#[derive(Clone, Copy, Debug, PartialEq, Eq, Hash)]
#[non_exhaustive]
pub enum ClTerminal {
    /// A variable.
    Variable(ClVariable),
    /// A constant integer.
    Int(u64),
}

/// A variable of a classical expression, by its identifier in the tables of
/// the expression.
#[derive(Clone, Copy, Debug, PartialEq, Eq, Hash)]
#[non_exhaustive]
pub enum ClVariable {
    /// A register.
    Register {
        /// The register's identifier.
        index: u32,
    },
    /// A single bit.
    Bit {
        /// The bit's identifier.
        index: u32,
    },
}

/// The payload of a variable: its identifier.
#[derive(Clone, Copy, Debug, PartialEq, Eq, Hash)]
pub struct ClIndex {
    /// The identifier.
    pub index: u32,
}

/// The mathematical value of a [`ClOperator`].
pub struct ClOperatorView {
    pub op: ClOp,
    pub args: Seq<ClArgumentView>,
}

/// The mathematical value of a [`ClArgument`].
pub enum ClArgumentView {
    Terminal(ClTerminal),
    Expression(Box<ClOperatorView>),
}

impl Default for ClVariable {
    fn default() -> (r: ClVariable)
        ensures
            r == (ClVariable::Register { index: 0 }),
    {
        ClVariable::Register { index: 0 }
    }
}

impl Default for ClTerminal {
    fn default() -> (r: ClTerminal)
        ensures
            r == ClTerminal::Int(0),
    {
        ClTerminal::Int(0)
    }
}

impl Default for ClArgument {
    fn default() -> (r: ClArgument)
        ensures
            r == ClArgument::Terminal(ClTerminal::Int(0)),
    {
        ClArgument::Terminal(ClTerminal::Int(0))
    }
}

impl Default for ClOperator {
    fn default() -> (r: ClOperator)
        ensures
            r.op == ClOp::INVALID,
            r.args@ == Seq::<ClArgument>::empty(),
    {
        ClOperator { op: ClOp::INVALID, args: Vec::new() }
    }
}

impl DeepView for ClIndex {
    type V = ClIndex;

    open spec fn deep_view(&self) -> ClIndex {
        *self
    }
}

/// An object with the one field `index`.
impl Codec for ClIndex {
    open spec fn decode_spec(j: JsonView) -> Result<ClIndex, ErrorView> {
        match required_spec::<u32>(j, "index") {
            Err(e) => Err(e),
            Ok(index) => Ok(ClIndex { index }),
        }
    }

    open spec fn encode_spec(v: ClIndex) -> JsonView {
        let e = Seq::empty();
        let e = put_spec::<u32>(e, "index", v.index);
        JsonView::Object(e)
    }

    open spec fn valid(v: ClIndex) -> bool {
        true
    }

    fn decode(j: &Json) -> (r: Result<ClIndex, DecodeError>) {
        let index: u32 = match required::<u32>(j, "index") {
            Ok(v) => v,
            Err(e) => {
                return Err(e);
            },
        };
        let r = ClIndex { index };
        proof {
            Self::lemma_round_trip(r);
        }
        Ok(r)
    }

    fn encode(&self) -> (j: Json) {
        let mut fields = Fields::new();
        put::<u32>(&mut fields, "index", &self.index);
        fields.finish()
    }

    proof fn lemma_round_trip(v: ClIndex) {
        broadcast use group_field;

        u32::lemma_round_trip(v.index);
    }
}

impl DeepView for ClVariable {
    type V = ClVariable;

    open spec fn deep_view(&self) -> ClVariable {
        *self
    }
}

/// An object with the tag `type`, which is `reg` or `bit`, and the payload
/// `var`, an object with the field `index`.
impl Codec for ClVariable {
    open spec fn decode_spec(j: JsonView) -> Result<ClVariable, ErrorView> {
        match required_spec::<String>(j, "type") {
            Err(e) => Err(e),
            Ok(tag) => if tag == "reg"@ {
                match required_spec::<ClIndex>(j, "var") {
                    Err(e) => Err(e),
                    Ok(p) => Ok(ClVariable::Register { index: p.index }),
                }
            } else if tag == "bit"@ {
                match required_spec::<ClIndex>(j, "var") {
                    Err(e) => Err(e),
                    Ok(p) => Ok(ClVariable::Bit { index: p.index }),
                }
            } else {
                Err(ErrorView::unknown_tag())
            },
        }
    }

    open spec fn encode_spec(v: ClVariable) -> JsonView {
        let e = Seq::empty();
        match v {
            ClVariable::Register { index } => {
                let e = put_spec::<String>(e, "type", "reg"@);
                let e = put_spec::<ClIndex>(e, "var", ClIndex { index });
                JsonView::Object(e)
            },
            ClVariable::Bit { index } => {
                let e = put_spec::<String>(e, "type", "bit"@);
                let e = put_spec::<ClIndex>(e, "var", ClIndex { index });
                JsonView::Object(e)
            },
        }
    }

    open spec fn valid(v: ClVariable) -> bool {
        true
    }

    fn decode(j: &Json) -> (r: Result<ClVariable, DecodeError>) {
        let tag: String = match required::<String>(j, "type") {
            Ok(v) => v,
            Err(e) => {
                return Err(e);
            },
        };
        let r = if str_eq(tag.as_str(), "reg") {
            match required::<ClIndex>(j, "var") {
                Ok(p) => ClVariable::Register { index: p.index },
                Err(e) => {
                    return Err(e);
                },
            }
        } else if str_eq(tag.as_str(), "bit") {
            match required::<ClIndex>(j, "var") {
                Ok(p) => ClVariable::Bit { index: p.index },
                Err(e) => {
                    return Err(e);
                },
            }
        } else {
            return Err(DecodeError::unknown_tag());
        };
        proof {
            Self::lemma_round_trip(r);
        }
        Ok(r)
    }

    fn encode(&self) -> (j: Json) {
        let mut fields = Fields::new();
        match self {
            ClVariable::Register { index } => {
                fields.put("type", Json::String("reg".to_owned()));
                put::<ClIndex>(&mut fields, "var", &ClIndex { index: *index });
            },
            ClVariable::Bit { index } => {
                fields.put("type", Json::String("bit".to_owned()));
                put::<ClIndex>(&mut fields, "var", &ClIndex { index: *index });
            },
        }
        fields.finish()
    }

    proof fn lemma_round_trip(v: ClVariable) {
        broadcast use group_field;

        reveal_strlit("type");
        reveal_strlit("var");
        reveal_strlit("reg");
        reveal_strlit("bit");
        assert("type"@.len() == 4 && "var"@.len() == 3);
        assert("reg"@[0] == 'r' && "bit"@[0] == 'b');
        match v {
            ClVariable::Register { index } => ClIndex::lemma_round_trip(ClIndex { index }),
            ClVariable::Bit { index } => ClIndex::lemma_round_trip(ClIndex { index }),
        }
    }
}

impl DeepView for ClTerminal {
    type V = ClTerminal;

    open spec fn deep_view(&self) -> ClTerminal {
        *self
    }
}

/// An object with the tag `type`, which is `var` or `int`, and the payload
/// `term`: a variable or an integer.
impl Codec for ClTerminal {
    open spec fn decode_spec(j: JsonView) -> Result<ClTerminal, ErrorView> {
        match required_spec::<String>(j, "type") {
            Err(e) => Err(e),
            Ok(tag) => if tag == "var"@ {
                match required_spec::<ClVariable>(j, "term") {
                    Err(e) => Err(e),
                    Ok(x) => Ok(ClTerminal::Variable(x)),
                }
            } else if tag == "int"@ {
                match required_spec::<u64>(j, "term") {
                    Err(e) => Err(e),
                    Ok(x) => Ok(ClTerminal::Int(x)),
                }
            } else {
                Err(ErrorView::unknown_tag())
            },
        }
    }

    open spec fn encode_spec(v: ClTerminal) -> JsonView {
        let e = Seq::empty();
        match v {
            ClTerminal::Variable(x) => {
                let e = put_spec::<String>(e, "type", "var"@);
                let e = put_spec::<ClVariable>(e, "term", x);
                JsonView::Object(e)
            },
            ClTerminal::Int(x) => {
                let e = put_spec::<String>(e, "type", "int"@);
                let e = put_spec::<u64>(e, "term", x);
                JsonView::Object(e)
            },
        }
    }

    open spec fn valid(v: ClTerminal) -> bool {
        true
    }

    fn decode(j: &Json) -> (r: Result<ClTerminal, DecodeError>) {
        let tag: String = match required::<String>(j, "type") {
            Ok(v) => v,
            Err(e) => {
                return Err(e);
            },
        };
        let r = if str_eq(tag.as_str(), "var") {
            match required::<ClVariable>(j, "term") {
                Ok(x) => ClTerminal::Variable(x),
                Err(e) => {
                    return Err(e);
                },
            }
        } else if str_eq(tag.as_str(), "int") {
            match required::<u64>(j, "term") {
                Ok(x) => ClTerminal::Int(x),
                Err(e) => {
                    return Err(e);
                },
            }
        } else {
            return Err(DecodeError::unknown_tag());
        };
        proof {
            Self::lemma_round_trip(r);
        }
        Ok(r)
    }

    fn encode(&self) -> (j: Json) {
        let mut fields = Fields::new();
        match self {
            ClTerminal::Variable(x) => {
                fields.put("type", Json::String("var".to_owned()));
                put::<ClVariable>(&mut fields, "term", x);
            },
            ClTerminal::Int(x) => {
                fields.put("type", Json::String("int".to_owned()));
                put::<u64>(&mut fields, "term", x);
            },
        }
        fields.finish()
    }

    proof fn lemma_round_trip(v: ClTerminal) {
        broadcast use group_field;

        reveal_strlit("type");
        reveal_strlit("term");
        reveal_strlit("var");
        reveal_strlit("int");
        assert("type"@[1] == 'y' && "term"@[1] == 'e');
        assert("var"@[0] == 'v' && "int"@[0] == 'i');
        match v {
            ClTerminal::Variable(x) => ClVariable::lemma_round_trip(x),
            ClTerminal::Int(x) => u64::lemma_round_trip(x),
        }
    }
}

impl ClOperator {
    /// The mathematical value of the node.
    pub open spec fn model(&self) -> ClOperatorView
        decreases self,
    {
        ClOperatorView { op: self.op, args: ClArgument::models(self.args@) }
    }
}

impl ClArgument {
    /// The mathematical value of the argument.
    pub open spec fn model(&self) -> ClArgumentView
        decreases self,
    {
        match self {
            ClArgument::Terminal(t) => ClArgumentView::Terminal(*t),
            ClArgument::Expression(o) => ClArgumentView::Expression(Box::new(o.model())),
        }
    }

    /// The mathematical values of a list of arguments.
    pub open spec fn models(args: Seq<ClArgument>) -> Seq<ClArgumentView>
        decreases args,
    {
        Seq::new(
            args.len(),
            |i: int|
                if 0 <= i < args.len() {
                    args[i].model()
                } else {
                    arbitrary()
                },
        )
    }
}

impl DeepView for ClOperator {
    type V = ClOperatorView;

    open spec fn deep_view(&self) -> ClOperatorView {
        self.model()
    }
}

impl DeepView for ClArgument {
    type V = ClArgumentView;

    open spec fn deep_view(&self) -> ClArgumentView {
        self.model()
    }
}

/// The node that a document decodes to: an object with the fields `op` and
/// `args`.
pub open spec fn decode_operator(j: JsonView) -> Result<ClOperatorView, ErrorView>
    decreases j,
{
    match required_spec::<ClOp>(j, "op") {
        Err(e) => Err(e),
        Ok(op) => match part(j, "args"@) {
            None => Err(ErrorView::missing("args")),
            Some(a) => {
                proof {
                    lemma_part_decreases(j, "args"@);
                }
                match lift(decode_arguments(a), PathStep::Field("args")) {
                    Err(e) => Err(e),
                    Ok(args) => Ok(ClOperatorView { op, args }),
                }
            },
        },
    }
}

/// The arguments that a document decodes to: an array of arguments.
pub open spec fn decode_arguments(j: JsonView) -> Result<Seq<ClArgumentView>, ErrorView>
    decreases j,
{
    match j {
        JsonView::Array(items) => collect(argument_results(items)),
        _ => Err(ErrorView::mismatch()),
    }
}

/// What each item of a list decodes to as an argument.
pub open spec fn argument_results(items: Seq<JsonView>) -> Seq<Result<ClArgumentView, ErrorView>>
    decreases items,
{
    Seq::new(
        items.len(),
        |i: int|
            if 0 <= i < items.len() {
                decode_argument(items[i])
            } else {
                Err(ErrorView::mismatch())
            },
    )
}

/// The argument that a document decodes to: an object with the tag `type`,
/// which is `term` or `expr`, and the payload `input`: a leaf or a node.
pub open spec fn decode_argument(j: JsonView) -> Result<ClArgumentView, ErrorView>
    decreases j,
{
    match required_spec::<String>(j, "type") {
        Err(e) => Err(e),
        Ok(tag) => if tag == "term"@ {
            match required_spec::<ClTerminal>(j, "input") {
                Err(e) => Err(e),
                Ok(t) => Ok(ClArgumentView::Terminal(t)),
            }
        } else if tag == "expr"@ {
            match part(j, "input"@) {
                None => Err(ErrorView::missing("input")),
                Some(c) => {
                    proof {
                        lemma_part_decreases(j, "input"@);
                    }
                    match lift(decode_operator(c), PathStep::Field("input")) {
                        Err(e) => Err(e),
                        Ok(o) => Ok(ClArgumentView::Expression(Box::new(o))),
                    }
                },
            }
        } else {
            Err(ErrorView::unknown_tag())
        },
    }
}

/// The document that a node encodes to.
pub open spec fn encode_operator(v: ClOperatorView) -> JsonView
    decreases v,
{
    let e = Seq::empty();
    let e = put_spec::<ClOp>(e, "op", v.op);
    let e = e.push(("args"@, JsonView::Array(argument_documents(v.args))));
    JsonView::Object(e)
}

/// The documents that the arguments of a list encode to.
pub open spec fn argument_documents(v: Seq<ClArgumentView>) -> Seq<JsonView>
    decreases v,
{
    Seq::new(
        v.len(),
        |i: int|
            if 0 <= i < v.len() {
                encode_argument(v[i])
            } else {
                JsonView::Null
            },
    )
}

/// The document that an argument encodes to.
pub open spec fn encode_argument(v: ClArgumentView) -> JsonView
    decreases v,
{
    let e = Seq::empty();
    match v {
        ClArgumentView::Terminal(t) => {
            let e = put_spec::<String>(e, "type", "term"@);
            let e = put_spec::<ClTerminal>(e, "input", t);
            JsonView::Object(e)
        },
        ClArgumentView::Expression(o) => {
            let e = put_spec::<String>(e, "type", "expr"@);
            let e = e.push(("input"@, encode_operator(*o)));
            JsonView::Object(e)
        },
    }
}

/// A node, encoded and decoded, is itself again.
pub proof fn lemma_operator_round_trip(v: ClOperatorView)
    ensures
        decode_operator(encode_operator(v)) == Ok::<ClOperatorView, ErrorView>(v),
    decreases v, 1int,
{
    broadcast use group_field;

    reveal_strlit("op");
    reveal_strlit("args");
    assert("op"@.len() == 2 && "args"@.len() == 4);
    ClOp::lemma_round_trip(v.op);
    lemma_arguments_round_trip(v.args);
}

/// A list of arguments, encoded and decoded, is itself again.
pub proof fn lemma_arguments_round_trip(v: Seq<ClArgumentView>)
    ensures
        decode_arguments(JsonView::Array(argument_documents(v))) == Ok::<
            Seq<ClArgumentView>,
            ErrorView,
        >(v),
    decreases v, 0int,
{
    let rs = argument_results(argument_documents(v));
    assert forall|i: int| 0 <= i < rs.len() implies rs[i] == Ok::<ClArgumentView, ErrorView>(
        v[i],
    ) by {
        lemma_argument_round_trip(v[i]);
    }
    lemma_collect_all_ok(rs, v);
}

/// An argument, encoded and decoded, is itself again.
pub proof fn lemma_argument_round_trip(v: ClArgumentView)
    ensures
        decode_argument(encode_argument(v)) == Ok::<ClArgumentView, ErrorView>(v),
    decreases v, 0int,
{
    broadcast use group_field;

    reveal_strlit("type");
    reveal_strlit("input");
    reveal_strlit("term");
    reveal_strlit("expr");
    assert("type"@.len() == 4 && "input"@.len() == 5);
    assert("term"@[0] == 't' && "expr"@[0] == 'e');
    match v {
        ClArgumentView::Terminal(t) => {
            ClTerminal::lemma_round_trip(t);
        },
        ClArgumentView::Expression(o) => {
            lemma_operator_round_trip(*o);
        },
    }
}

impl ClOperator {
    /// Decodes a node.
    #[verifier::loop_isolation(false)]
    pub fn from_json(j: &Json) -> (r: Result<ClOperator, DecodeError>)
        ensures
            agrees(r, decode_operator(j.deep_view())),
        decreases j,
    {
        let op: ClOp = match required::<ClOp>(j, "op") {
            Ok(v) => v,
            Err(e) => {
                return Err(e);
            },
        };
        let a = match j.get("args") {
            Some(a) => a,
            None => {
                return Err(DecodeError::missing("args"));
            },
        };
        match a {
            Json::Array(items) => {
                let ghost all = a.deep_view()->Array_0;
                let ghost rs = argument_results(all);
                let mut args: Vec<ClArgument> = Vec::new();
                let mut i: usize = 0;
                assert(rs.take(0) =~= Seq::empty());
                assert(ClArgument::models(args@) =~= Seq::empty());
                while i < items.len()
                    invariant
                        i <= items.len(),
                        a == Json::Array(*items),
                        decreases_to!(j => items),
                        all == a.deep_view()->Array_0,
                        rs == argument_results(all),
                        args@.len() == i,
                        collect(rs.take(i as int)) == Ok::<Seq<ClArgumentView>, ErrorView>(
                            ClArgument::models(args@),
                        ),
                    decreases items.len() - i,
                {
                    let ghost before = ClArgument::models(args@);
                    proof {
                        lemma_collect_step(rs, i as int);
                        assert(decreases_to!(items => items[i as int]));
                        assert(all[i as int] == items@[i as int].model());
                    }
                    match ClArgument::from_json(&items[i]) {
                        Ok(v) => {
                            args.push(v);
                            assert(ClArgument::models(args@) =~= before.push(v.model()));
                        },
                        Err(e) => {
                            proof {
                                lemma_collect_prefix_err(rs, i + 1);
                            }
                            return Err(e.under(PathStep::Index(i)).under(PathStep::Field("args")));
                        },
                    }
                    i = i + 1;
                }
                assert(rs.take(i as int) =~= rs);
                Ok(ClOperator { op, args })
            },
            _ => Err(DecodeError::mismatch().under(PathStep::Field("args"))),
        }
    }

    /// Encodes a node.
    #[verifier::loop_isolation(false)]
    pub fn to_json(&self) -> (j: Json)
        ensures
            j.deep_view() == encode_operator(self.deep_view()),
        decreases self,
    {
        let mut items: Vec<Json> = Vec::new();
        let mut i: usize = 0;
        while i < self.args.len()
            invariant
                i <= self.args.len(),
                items.len() == i,
                forall|k: int|
                    0 <= k < i ==> (#[trigger] items@[k]).model() == encode_argument(
                        self.args@[k].model(),
                    ),
            decreases self.args.len() - i,
        {
            proof {
                assert(decreases_to!(self.args => self.args[i as int]));
            }
            items.push(self.args[i].to_json());
            i = i + 1;
        }
        let a = Json::Array(items);
        assert(a.model()->Array_0 =~= argument_documents(ClArgument::models(self.args@)));
        let mut fields = Fields::new();
        put::<ClOp>(&mut fields, "op", &self.op);
        fields.put("args", a);
        fields.finish()
    }
}

impl ClArgument {
    /// Decodes an argument.
    pub fn from_json(j: &Json) -> (r: Result<ClArgument, DecodeError>)
        ensures
            agrees(r, decode_argument(j.deep_view())),
        decreases j,
    {
        let tag: String = match required::<String>(j, "type") {
            Ok(v) => v,
            Err(e) => {
                return Err(e);
            },
        };
        if str_eq(tag.as_str(), "term") {
            match required::<ClTerminal>(j, "input") {
                Ok(t) => Ok(ClArgument::Terminal(t)),
                Err(e) => Err(e),
            }
        } else if str_eq(tag.as_str(), "expr") {
            match j.get("input") {
                None => Err(DecodeError::missing("input")),
                Some(c) => match ClOperator::from_json(c) {
                    Ok(o) => Ok(ClArgument::Expression(Box::new(o))),
                    Err(e) => Err(e.under(PathStep::Field("input"))),
                },
            }
        } else {
            Err(DecodeError::unknown_tag())
        }
    }

    /// Encodes an argument.
    pub fn to_json(&self) -> (j: Json)
        ensures
            j.deep_view() == encode_argument(self.deep_view()),
        decreases self,
    {
        let mut fields = Fields::new();
        match self {
            ClArgument::Terminal(t) => {
                fields.put("type", Json::String("term".to_owned()));
                put::<ClTerminal>(&mut fields, "input", t);
            },
            ClArgument::Expression(o) => {
                fields.put("type", Json::String("expr".to_owned()));
                fields.put("input", o.to_json());
            },
        }
        fields.finish()
    }
}

impl ClOperator {
    /// A copy of the node.
    #[verifier::loop_isolation(false)]
    pub(crate) fn duplicate(&self) -> (r: ClOperator)
        ensures
            r.model() == self.model(),
        decreases self,
    {
        let mut args: Vec<ClArgument> = Vec::new();
        let mut i: usize = 0;
        while i < self.args.len()
            invariant
                i <= self.args.len(),
                args@.len() == i,
                forall|k: int| 0 <= k < i ==> (#[trigger] args@[k]).model() == self.args@[k].model(),
            decreases self.args.len() - i,
        {
            proof {
                assert(decreases_to!(self.args => self.args[i as int]));
            }
            args.push(self.args[i].duplicate());
            i = i + 1;
        }
        let r = ClOperator { op: self.op, args };
        assert(ClArgument::models(r.args@) =~= ClArgument::models(self.args@));
        r
    }
}

impl ClArgument {
    /// A copy of the argument.
    pub(crate) fn duplicate(&self) -> (r: ClArgument)
        ensures
            r.model() == self.model(),
        decreases self,
    {
        match self {
            ClArgument::Terminal(t) => ClArgument::Terminal(*t),
            ClArgument::Expression(o) => ClArgument::Expression(Box::new(o.duplicate())),
        }
    }
}

impl Clone for ClOperator {
    fn clone(&self) -> (r: ClOperator)
        ensures
            r.deep_view() == self.deep_view(),
    {
        self.duplicate()
    }
}

impl Clone for ClArgument {
    fn clone(&self) -> (r: ClArgument)
        ensures
            r.deep_view() == self.deep_view(),
    {
        self.duplicate()
    }
}

impl DeepCopy for ClOperator {
    fn deep_copy(&self) -> (r: ClOperator) {
        self.duplicate()
    }
}

impl DeepCopy for ClArgument {
    fn deep_copy(&self) -> (r: ClArgument) {
        self.duplicate()
    }
}

impl DeepCopy for ClIndex {
    fn deep_copy(&self) -> (r: ClIndex) {
        *self
    }
}

impl DeepCopy for ClVariable {
    fn deep_copy(&self) -> (r: ClVariable) {
        *self
    }
}

impl DeepCopy for ClTerminal {
    fn deep_copy(&self) -> (r: ClTerminal) {
        *self
    }
}

impl Codec for ClOperator {
    open spec fn decode_spec(j: JsonView) -> Result<ClOperatorView, ErrorView> {
        decode_operator(j)
    }

    open spec fn encode_spec(v: ClOperatorView) -> JsonView {
        encode_operator(v)
    }

    open spec fn valid(v: ClOperatorView) -> bool {
        true
    }

    fn decode(j: &Json) -> (r: Result<ClOperator, DecodeError>) {
        let r = ClOperator::from_json(j);
        proof {
            if r is Ok {
                lemma_operator_round_trip(r->Ok_0.deep_view());
            }
        }
        r
    }

    fn encode(&self) -> (j: Json) {
        self.to_json()
    }

    proof fn lemma_round_trip(v: ClOperatorView) {
        lemma_operator_round_trip(v);
    }
}

impl Codec for ClArgument {
    open spec fn decode_spec(j: JsonView) -> Result<ClArgumentView, ErrorView> {
        decode_argument(j)
    }

    open spec fn encode_spec(v: ClArgumentView) -> JsonView {
        encode_argument(v)
    }

    open spec fn valid(v: ClArgumentView) -> bool {
        true
    }

    fn decode(j: &Json) -> (r: Result<ClArgument, DecodeError>) {
        let r = ClArgument::from_json(j);
        proof {
            if r is Ok {
                lemma_argument_round_trip(r->Ok_0.deep_view());
            }
        }
        r
    }

    fn encode(&self) -> (j: Json) {
        self.to_json()
    }

    proof fn lemma_round_trip(v: ClArgumentView) {
        lemma_argument_round_trip(v);
    }
}

} // verus!
