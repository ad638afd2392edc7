use vstd::prelude::*;
use vstd::string::*;

verus! {

/// The pattern of a parameter, as far as a callback looks at it.
#[derive(Clone, Debug, PartialEq, Eq)]
pub enum Pattern {
    /// A plain name.
    Ident(String),
    /// Anything else: a tuple, a reference, a wildcard.
    Other,
}

/// One parameter of a function.
#[derive(Clone, Debug, PartialEq, Eq)]
pub enum FnArg {
    /// `self` in one of its forms.
    Receiver,
    /// A pattern and its type, the type as written.
    Typed { pat: Pattern, ty: String },
}

/// The signature of the function for which a trampoline is made: its name
/// and its parameters, the environment first.
#[derive(Clone, Debug, PartialEq, Eq)]
pub struct Signature {
    pub ident: String,
    pub inputs: Vec<FnArg>,
}

/// One argument of the callback: the variable that holds it, its type as
/// written, and which of the host's arguments it is.
#[derive(Clone, Debug, PartialEq, Eq)]
pub struct Binding {
    pub name: String,
    pub ty: String,
    pub index: usize,
}

/// What a trampoline does with the arguments: how many it expects and where
/// each of them goes.
#[derive(Clone, Debug, PartialEq, Eq)]
pub struct Arguments {
    pub count: usize,
    pub bindings: Vec<Binding>,
}

/// The plan of a trampoline: the symbol under which it is exported, the
/// function that it calls, and what it does with the arguments.
#[derive(Clone, Debug, PartialEq, Eq)]
pub struct Callback {
    pub c_name: String,
    pub rs_name: String,
    pub arguments: Arguments,
}

impl FnArg {
    /// The parameter is a plain name with a type.
    pub open spec fn named(&self) -> bool {
        self matches FnArg::Typed { pat: Pattern::Ident(_), ty }
    }

    /// The name of a parameter that is a plain name.
    pub open spec fn name(&self) -> Seq<char>
        recommends
            self.named(),
    {
        match self {
            FnArg::Typed { pat: Pattern::Ident(ident), ty } => ident@,
            _ => Seq::empty(),
        }
    }

    /// The type of a parameter that has one, as written.
    pub open spec fn ty(&self) -> Seq<char> {
        match self {
            FnArg::Typed { pat, ty } => ty@,
            FnArg::Receiver => Seq::empty(),
        }
    }

    /// Whether the parameter is a plain name with a type.
    pub fn is_named(&self) -> (named: bool)
        ensures
            named == self.named(),
    {
        match self {
            FnArg::Typed { pat: Pattern::Ident(_), ty } => true,
            _ => false,
        }
    }
}

/// The parameters can be those of a callback: the first takes the
/// environment, and every further one is a plain name with a type.
pub open spec fn supported(inputs: Seq<FnArg>) -> bool {
    &&& inputs.len() >= 1
    &&& forall|index: int| 1 <= index < inputs.len() ==> (#[trigger] inputs[index]).named()
}

/// The name of the variable that holds the argument for the parameter
/// `ident`.
pub open spec fn binding_name(ident: Seq<char>) -> Seq<char> {
    "fn_arg_"@ + ident
}

/// The binding for the parameter `input`, which is argument `index` of the
/// host.
pub open spec fn bound(binding: Binding, input: FnArg, index: int) -> bool {
    &&& binding.name@ == binding_name(input.name())
    &&& binding.ty@ == input.ty()
    &&& binding.index == index
}

/// The arguments that a callback with the parameters `inputs` takes from
/// the host: one for each parameter behind the environment, in order.
pub open spec fn planned(arguments: Arguments, inputs: Seq<FnArg>) -> bool {
    &&& arguments.count == inputs.len() - 1
    &&& arguments.bindings@.len() == inputs.len() - 1
    &&& forall|index: int|
        0 <= index < inputs.len() - 1 ==> bound(
            #[trigger] arguments.bindings@[index],
            inputs[index + 1],
            index,
        )
}

impl Signature {
    /// Whether a trampoline can be made for the signature.
    pub fn is_supported(&self) -> (fits: bool)
        ensures
            fits == supported(self.inputs@),
    {
        if self.inputs.len() == 0 {
            return false;
        }
        let mut index: usize = 1;
        while index < self.inputs.len()
            invariant
                1 <= index <= self.inputs.len(),
                forall|seen: int| 1 <= seen < index ==> (#[trigger] self.inputs@[seen]).named(),
            decreases self.inputs.len() - index,
        {
            if !self.inputs[index].is_named() {
                return false;
            }
            index += 1;
        }
        true
    }
}

/// Plans what a trampoline does with the arguments of a function with the
/// parameters `inputs`: the first parameter takes the environment; each
/// further one takes the host's argument at its place, validated as the
/// parameter's type, in a variable named after the parameter.
pub fn make_args(inputs: &Vec<FnArg>) -> (arguments: Arguments)
    requires
        supported(inputs@),
    ensures
        planned(arguments, inputs@),
{
    let count = inputs.len() - 1;
    let mut bindings: Vec<Binding> = Vec::new();
    let mut index: usize = 0;
    while index < count
        invariant
            supported(inputs@),
            count == inputs.len() - 1,
            index <= count,
            bindings@.len() == index,
            forall|seen: int|
                0 <= seen < index ==> bound(#[trigger] bindings@[seen], inputs@[seen + 1], seen),
        decreases count - index,
    {
        match &inputs[index + 1] {
            FnArg::Typed { pat: Pattern::Ident(ident), ty } => {
                let mut name = "fn_arg_".to_owned();
                name.append(ident.as_str());
                bindings.push(Binding { name, ty: ty.clone(), index });
            },
            _ => {
                assert(inputs@[index + 1].named());
                assert(false);
            },
        }
        index += 1;
    }
    Arguments { count, bindings }
}

/// Plans the trampoline that is exported as `c_name` and calls the function
/// with the signature `sig`.
pub fn make_callback(c_name: String, sig: Signature) -> (callback: Callback)
    requires
        supported(sig.inputs@),
    ensures
        callback.c_name@ == c_name@,
        callback.rs_name@ == sig.ident@,
        planned(callback.arguments, sig.inputs@),
{
    let arguments = make_args(&sig.inputs);
    Callback { c_name, rs_name: sig.ident, arguments }
}

/// Why no trampoline is made for a function.
#[derive(Clone, Copy, Debug, PartialEq, Eq, Structural)]
pub enum Rejection {
    /// What stands in the attribute is no identifier.
    Symbol,
    /// What the attribute stands on is no function.
    Function,
    /// A parameter behind the first is no plain name with a type, or there
    /// is no parameter at all.
    Argument,
}

/// What is planned for the attribute `symbol` on the function `signature`,
/// each as it was parsed: the first thing that is amiss, or the trampoline.
pub open spec fn decided(
    symbol: Option<Seq<char>>,
    signature: Option<Signature>,
    plan: Result<Callback, Rejection>,
) -> bool {
    match (symbol, signature) {
        (None, _) => plan == Err::<Callback, Rejection>(Rejection::Symbol),
        (Some(_), None) => plan == Err::<Callback, Rejection>(Rejection::Function),
        (Some(name), Some(sig)) => if supported(sig.inputs@) {
            &&& plan matches Ok(callback)
            &&& callback.c_name@ == name
            &&& callback.rs_name@ == sig.ident@
            &&& planned(callback.arguments, sig.inputs@)
        } else {
            plan == Err::<Callback, Rejection>(Rejection::Argument)
        },
    }
}

/// The characters of a symbol, where there is one.
pub open spec fn spelled(symbol: Option<String>) -> Option<Seq<char>> {
    match symbol {
        Some(name) => Some(name@),
        None => None,
    }
}

/// Plans the trampoline for an attribute and the function it stands on,
/// each as the parser read it: `None` where it could not be read. The first
/// thing that is amiss is reported; otherwise the plan is that of
/// `make_callback`.
pub fn decide(
    symbol: Option<String>,
    signature: Option<Signature>,
) -> (plan: Result<Callback, Rejection>)
    ensures
        decided(spelled(symbol), signature, plan),
{
    let c_name = match symbol {
        Some(name) => name,
        None => return Err(Rejection::Symbol),
    };
    let sig = match signature {
        Some(sig) => sig,
        None => return Err(Rejection::Function),
    };
    if !sig.is_supported() {
        return Err(Rejection::Argument);
    }
    Ok(make_callback(c_name, sig))
}

} // verus!
