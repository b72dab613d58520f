//! The symbols of the language that the keypad can type.

use vstd::prelude::*;

verus! {

/// A primitive of the language that has a key on the keypad.
///
/// The keypad only needs to tell primitives apart; what the language knows
/// about one (its glyph, its arity) is asked for by [`Prim::name`].
#[derive(Debug, Clone, Copy, PartialEq, Eq, Structural, Hash)]
pub enum Prim {
    // Stack manipulation and planet notation
    Identity,
    Slf,
    Backward,
    Pop,
    Dup,
    Flip,
    Stack,
    Fork,
    Both,
    Bracket,
    Dip,
    Gap,
    On,
    By,
    Off,
    With,
    Below,
    // Inversion and fill
    Un,
    Anti,
    Under,
    Obverse,
    Fill,
    // Iteration and control
    Reduce,
    Fold,
    Scan,
    Repeat,
    Switch,
    Do,
    Try,
    Case,
    Assert,
    // Array mapping
    Rows,
    Table,
    Stencil,
    Tuples,
    Partition,
    Group,
    // Monadic arithmetic
    Neg,
    Sign,
    Not,
    Abs,
    Sqrt,
    Sin,
    Floor,
    Ceil,
    Round,
    // Monadic structure
    Len,
    Shape,
    First,
    Last,
    Reverse,
    Deshape,
    Fix,
    Transpose,
    // Monadic values
    Range,
    Bits,
    Where,
    Parse,
    // Monadic comparison
    Sort,
    Rise,
    Fall,
    Classify,
    Deduplicate,
    Unique,
    // Boxes
    Box,
    Content,
    Inventory,
    // Dyadic arithmetic
    Add,
    Sub,
    Mul,
    Div,
    Modulus,
    Pow,
    Log,
    Atan,
    Complex,
    Base,
    // Dyadic structure
    Couple,
    Join,
    Select,
    Pick,
    Reshape,
    Drop,
    Take,
    Rotate,
    Keep,
    Orient,
    // Comparison
    Eq,
    Ne,
    Le,
    Lt,
    Gt,
    Ge,
    Min,
    Max,
    // Dyadic search
    Match,
    Find,
    Mask,
    MemberOf,
    IndexOf,
    // Constants
    Rand,
    Eta,
    Pi,
    Tau,
    Infinity,
}

impl Prim {
    /// The name under which the language knows this primitive.
    pub open spec fn spec_name(self) -> Seq<char> {
        match self {
            Prim::Identity => "identity"@,
            Prim::Slf => "self"@,
            Prim::Backward => "backward"@,
            Prim::Pop => "pop"@,
            Prim::Dup => "duplicate"@,
            Prim::Flip => "flip"@,
            Prim::Stack => "stack"@,
            Prim::Fork => "fork"@,
            Prim::Both => "both"@,
            Prim::Bracket => "bracket"@,
            Prim::Dip => "dip"@,
            Prim::Gap => "gap"@,
            Prim::On => "on"@,
            Prim::By => "by"@,
            Prim::Off => "off"@,
            Prim::With => "with"@,
            Prim::Below => "below"@,
            Prim::Un => "un"@,
            Prim::Anti => "anti"@,
            Prim::Under => "under"@,
            Prim::Obverse => "obverse"@,
            Prim::Fill => "fill"@,
            Prim::Reduce => "reduce"@,
            Prim::Fold => "fold"@,
            Prim::Scan => "scan"@,
            Prim::Repeat => "repeat"@,
            Prim::Switch => "switch"@,
            Prim::Do => "do"@,
            Prim::Try => "try"@,
            Prim::Case => "case"@,
            Prim::Assert => "assert"@,
            Prim::Rows => "rows"@,
            Prim::Table => "table"@,
            Prim::Stencil => "stencil"@,
            Prim::Tuples => "tuples"@,
            Prim::Partition => "partition"@,
            Prim::Group => "group"@,
            Prim::Neg => "negate"@,
            Prim::Sign => "sign"@,
            Prim::Not => "not"@,
            Prim::Abs => "absolute value"@,
            Prim::Sqrt => "sqrt"@,
            Prim::Sin => "sine"@,
            Prim::Floor => "floor"@,
            Prim::Ceil => "ceiling"@,
            Prim::Round => "round"@,
            Prim::Len => "length"@,
            Prim::Shape => "shape"@,
            Prim::First => "first"@,
            Prim::Last => "last"@,
            Prim::Reverse => "reverse"@,
            Prim::Deshape => "deshape"@,
            Prim::Fix => "fix"@,
            Prim::Transpose => "transpose"@,
            Prim::Range => "range"@,
            Prim::Bits => "bits"@,
            Prim::Where => "where"@,
            Prim::Parse => "parse"@,
            Prim::Sort => "sort"@,
            Prim::Rise => "rise"@,
            Prim::Fall => "fall"@,
            Prim::Classify => "classify"@,
            Prim::Deduplicate => "deduplicate"@,
            Prim::Unique => "unique"@,
            Prim::Box => "box"@,
            Prim::Content => "content"@,
            Prim::Inventory => "inventory"@,
            Prim::Add => "add"@,
            Prim::Sub => "subtract"@,
            Prim::Mul => "multiply"@,
            Prim::Div => "divide"@,
            Prim::Modulus => "modulus"@,
            Prim::Pow => "power"@,
            Prim::Log => "logarithm"@,
            Prim::Atan => "atangent"@,
            Prim::Complex => "complex"@,
            Prim::Base => "base"@,
            Prim::Couple => "couple"@,
            Prim::Join => "join"@,
            Prim::Select => "select"@,
            Prim::Pick => "pick"@,
            Prim::Reshape => "reshape"@,
            Prim::Drop => "drop"@,
            Prim::Take => "take"@,
            Prim::Rotate => "rotate"@,
            Prim::Keep => "keep"@,
            Prim::Orient => "orient"@,
            Prim::Eq => "equals"@,
            Prim::Ne => "not equals"@,
            Prim::Le => "less or equal"@,
            Prim::Lt => "less than"@,
            Prim::Gt => "greater than"@,
            Prim::Ge => "greater or equal"@,
            Prim::Min => "minimum"@,
            Prim::Max => "maximum"@,
            Prim::Match => "match"@,
            Prim::Find => "find"@,
            Prim::Mask => "mask"@,
            Prim::MemberOf => "memberof"@,
            Prim::IndexOf => "indexof"@,
            Prim::Rand => "random"@,
            Prim::Eta => "eta"@,
            Prim::Pi => "pi"@,
            Prim::Tau => "tau"@,
            Prim::Infinity => "infinity"@,
        }
    }

    /// The name under which the language knows this primitive.
    pub fn name(&self) -> (r: &'static str)
        ensures
            r@ == self.spec_name(),
    {
        match self {
            Prim::Identity => "identity",
            Prim::Slf => "self",
            Prim::Backward => "backward",
            Prim::Pop => "pop",
            Prim::Dup => "duplicate",
            Prim::Flip => "flip",
            Prim::Stack => "stack",
            Prim::Fork => "fork",
            Prim::Both => "both",
            Prim::Bracket => "bracket",
            Prim::Dip => "dip",
            Prim::Gap => "gap",
            Prim::On => "on",
            Prim::By => "by",
            Prim::Off => "off",
            Prim::With => "with",
            Prim::Below => "below",
            Prim::Un => "un",
            Prim::Anti => "anti",
            Prim::Under => "under",
            Prim::Obverse => "obverse",
            Prim::Fill => "fill",
            Prim::Reduce => "reduce",
            Prim::Fold => "fold",
            Prim::Scan => "scan",
            Prim::Repeat => "repeat",
            Prim::Switch => "switch",
            Prim::Do => "do",
            Prim::Try => "try",
            Prim::Case => "case",
            Prim::Assert => "assert",
            Prim::Rows => "rows",
            Prim::Table => "table",
            Prim::Stencil => "stencil",
            Prim::Tuples => "tuples",
            Prim::Partition => "partition",
            Prim::Group => "group",
            Prim::Neg => "negate",
            Prim::Sign => "sign",
            Prim::Not => "not",
            Prim::Abs => "absolute value",
            Prim::Sqrt => "sqrt",
            Prim::Sin => "sine",
            Prim::Floor => "floor",
            Prim::Ceil => "ceiling",
            Prim::Round => "round",
            Prim::Len => "length",
            Prim::Shape => "shape",
            Prim::First => "first",
            Prim::Last => "last",
            Prim::Reverse => "reverse",
            Prim::Deshape => "deshape",
            Prim::Fix => "fix",
            Prim::Transpose => "transpose",
            Prim::Range => "range",
            Prim::Bits => "bits",
            Prim::Where => "where",
            Prim::Parse => "parse",
            Prim::Sort => "sort",
            Prim::Rise => "rise",
            Prim::Fall => "fall",
            Prim::Classify => "classify",
            Prim::Deduplicate => "deduplicate",
            Prim::Unique => "unique",
            Prim::Box => "box",
            Prim::Content => "content",
            Prim::Inventory => "inventory",
            Prim::Add => "add",
            Prim::Sub => "subtract",
            Prim::Mul => "multiply",
            Prim::Div => "divide",
            Prim::Modulus => "modulus",
            Prim::Pow => "power",
            Prim::Log => "logarithm",
            Prim::Atan => "atangent",
            Prim::Complex => "complex",
            Prim::Base => "base",
            Prim::Couple => "couple",
            Prim::Join => "join",
            Prim::Select => "select",
            Prim::Pick => "pick",
            Prim::Reshape => "reshape",
            Prim::Drop => "drop",
            Prim::Take => "take",
            Prim::Rotate => "rotate",
            Prim::Keep => "keep",
            Prim::Orient => "orient",
            Prim::Eq => "equals",
            Prim::Ne => "not equals",
            Prim::Le => "less or equal",
            Prim::Lt => "less than",
            Prim::Gt => "greater than",
            Prim::Ge => "greater or equal",
            Prim::Min => "minimum",
            Prim::Max => "maximum",
            Prim::Match => "match",
            Prim::Find => "find",
            Prim::Mask => "mask",
            Prim::MemberOf => "memberof",
            Prim::IndexOf => "indexof",
            Prim::Rand => "random",
            Prim::Eta => "eta",
            Prim::Pi => "pi",
            Prim::Tau => "tau",
            Prim::Infinity => "infinity",
        }
    }
}

} // verus!
