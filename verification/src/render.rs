//! The source text that a record stands for.
//!
//! Every part of a record is written as a list of words, joined by single
//! spaces; a part that is absent is an empty word. The text of a mirror is
//! what is compiled in its place.

use vstd::prelude::*;
use crate::interface::{
    args_model, text_opt, GenericArg, GenericArgModel, InterfaceModel, InterfaceRef, PathArguments,
    PathArgumentsModel, TypeExpr, TypeModel,
};
use crate::record::{
    texts, ImplRecord, Member, MemberModel, MethodBody,
    MethodBodyModel, MethodItem, MethodModel, OutputBinding, OutputBindingModel, OutputTypeItem,
    OutputTypeModel, Pattern, PatternModel, Receiver, ReceiverModel, ReceiverShape,
    ReceiverShapeModel, RecordModel, TypedArg, TypedArgModel,
};

verus! {

/// The first `n` of `parts`, with `separator` between each two.
pub open spec fn join_first(parts: Seq<Seq<char>>, separator: Seq<char>, n: nat) -> Seq<char>
    decreases n,
{
    if n == 0 {
        Seq::empty()
    } else if n == 1 {
        parts[0]
    } else {
        join_first(parts, separator, (n - 1) as nat) + separator + parts[n - 1]
    }
}

/// All of `parts`, with `separator` between each two.
pub open spec fn join(parts: Seq<Seq<char>>, separator: Seq<char>) -> Seq<char> {
    join_first(parts, separator, parts.len())
}

/// All of `parts`, with a space between each two.
pub open spec fn words(parts: Seq<Seq<char>>) -> Seq<char> {
    join(parts, " "@)
}

/// `text` where `present` holds, else the empty text.
pub open spec fn text_if(present: bool, text: Seq<char>) -> Seq<char> {
    if present {
        text
    } else {
        Seq::empty()
    }
}

/// The text, or the empty text where there is none.
pub open spec fn text_or_empty(text: Option<Seq<char>>) -> Seq<char> {
    match text {
        Some(t) => t,
        None => Seq::empty(),
    }
}

/// Joins `parts` with `separator` between each two.
pub fn join_texts(parts: &Vec<String>, separator: &str) -> (text: String)
    ensures
        text@ == join(texts(parts@), separator@),
{
    let mut text = String::new();
    let mut i: usize = 0;
    while i < parts.len()
        invariant
            i <= parts.len(),
            text@ == join_first(texts(parts@), separator@, i as nat),
        decreases parts.len() - i,
    {
        if i > 0 {
            text.append(separator);
        }
        text.append(parts[i].as_str());
        assert(text@ =~= join_first(texts(parts@), separator@, (i + 1) as nat));
        i += 1;
    }
    text
}

/// Joins `parts` with a space between each two.
pub fn join_words(parts: &Vec<String>) -> (text: String)
    ensures
        text@ == words(texts(parts@)),
{
    join_texts(parts, " ")
}

/// `text` where `present` holds, else the empty text.
pub fn word_if(present: bool, text: &str) -> (word: String)
    ensures
        word@ == text_if(present, text@),
{
    if present {
        text.to_owned()
    } else {
        String::new()
    }
}

/// The text, or the empty text where there is none.
pub fn word_or_empty(text: &Option<String>) -> (word: String)
    ensures
        word@ == text_or_empty(text_opt(*text)),
{
    match text {
        Some(t) => t.clone(),
        None => String::new(),
    }
}

impl TypeModel {
    /// The type as source text: `& 'a mut T` for a reference, with the
    /// lifetime and `mut` as far as they are there.
    pub open spec fn source(self) -> Seq<char>
        decreases self,
    {
        match self {
            TypeModel::Reference { lifetime, mutable, elem } => words(
                seq!["&"@, text_or_empty(lifetime), text_if(mutable, "mut"@), elem.source()],
            ),
            TypeModel::Verbatim(text) => text,
        }
    }
}

impl TypeExpr {
    /// The type as source text.
    pub fn to_source(&self) -> (text: String)
        ensures
            text@ == self@.source(),
        decreases self,
    {
        match self {
            TypeExpr::Reference { lifetime, mutable, elem } => {
                let mut parts: Vec<String> = Vec::new();
                parts.push("&".to_owned());
                parts.push(word_or_empty(lifetime));
                parts.push(word_if(*mutable, "mut"));
                parts.push(elem.to_source());
                assert(texts(parts@) =~= seq![
                    "&"@,
                    text_or_empty(text_opt(*lifetime)),
                    text_if(*mutable, "mut"@),
                    elem@.source(),
                ]);
                join_words(&parts)
            },
            TypeExpr::Verbatim(text) => text.clone(),
        }
    }
}

impl GenericArgModel {
    /// The argument as source text.
    pub open spec fn source(self) -> Seq<char> {
        match self {
            GenericArgModel::Lifetime(name) => name,
            GenericArgModel::Type(ty) => ty.source(),
            GenericArgModel::Other(text) => text,
        }
    }
}

impl GenericArg {
    /// The argument as source text.
    pub fn to_source(&self) -> (text: String)
        ensures
            text@ == self@.source(),
    {
        match self {
            GenericArg::Lifetime(name) => name.clone(),
            GenericArg::Type(ty) => ty.to_source(),
            GenericArg::Other(text) => text.clone(),
        }
    }
}

/// The source texts of a list of arguments, in order.
pub open spec fn argument_sources(args: Seq<GenericArgModel>) -> Seq<Seq<char>> {
    Seq::new(args.len(), |i: int| args[i].source())
}

impl PathArgumentsModel {
    /// The arguments as source text: nothing, `< A , B >`, or the
    /// parenthesized list as written.
    pub open spec fn source(self) -> Seq<char> {
        match self {
            PathArgumentsModel::Absent => Seq::empty(),
            PathArgumentsModel::AngleBracketed(args) => words(
                seq!["<"@, join(argument_sources(args), " , "@), ">"@],
            ),
            PathArgumentsModel::Parenthesized(text) => text,
        }
    }
}

impl PathArguments {
    /// The arguments as source text.
    pub fn to_source(&self) -> (text: String)
        ensures
            text@ == self@.source(),
    {
        match self {
            PathArguments::Absent => String::new(),
            PathArguments::AngleBracketed(args) => {
                let mut sources: Vec<String> = Vec::new();
                let mut i: usize = 0;
                while i < args.len()
                    invariant
                        i <= args.len(),
                        sources.len() == i,
                        forall|j: int| 0 <= j < i ==> sources[j]@ == args[j]@.source(),
                    decreases args.len() - i,
                {
                    sources.push(args[i].to_source());
                    i += 1;
                }
                assert(texts(sources@) =~= argument_sources(args_model(args@)));
                let mut parts: Vec<String> = Vec::new();
                parts.push("<".to_owned());
                parts.push(join_texts(&sources, " , "));
                parts.push(">".to_owned());
                assert(texts(parts@) =~= seq![
                    "<"@,
                    join(argument_sources(args_model(args@)), " , "@),
                    ">"@,
                ]);
                join_words(&parts)
            },
            PathArguments::Parenthesized(text) => text.clone(),
        }
    }
}

impl InterfaceModel {
    /// The interface reference as source text: `! path < A , B >`, the `!`
    /// only where the reference is negated.
    pub open spec fn source(self) -> Seq<char> {
        words(seq![text_if(self.negated, "!"@), self.path, self.arguments.source()])
    }
}

impl InterfaceRef {
    /// The interface reference as source text.
    pub fn to_source(&self) -> (text: String)
        ensures
            text@ == self@.source(),
    {
        let mut parts: Vec<String> = Vec::new();
        parts.push(word_if(self.negated, "!"));
        parts.push(self.path.clone());
        parts.push(self.arguments.to_source());
        assert(texts(parts@) =~= seq![
            text_if(self.negated, "!"@),
            self.path@,
            self.arguments@.source(),
        ]);
        join_words(&parts)
    }
}

impl ReceiverModel {
    /// The receiver as source text: `& 'a mut self`, each part but `self` as
    /// far as it is there, after the receiver's attributes.
    pub open spec fn source(self) -> Seq<char> {
        match self.shape {
            ReceiverShapeModel::Value { mutable } => words(
                seq![self.attrs, text_if(mutable, "mut"@), "self"@],
            ),
            ReceiverShapeModel::Reference { lifetime, mutable } => words(
                seq![self.attrs, "&"@, text_or_empty(lifetime), text_if(mutable, "mut"@), "self"@],
            ),
        }
    }
}

impl Receiver {
    /// The receiver as source text.
    pub fn to_source(&self) -> (text: String)
        ensures
            text@ == self@.source(),
    {
        let mut parts: Vec<String> = Vec::new();
        parts.push(self.attrs.clone());
        match &self.shape {
            ReceiverShape::Value { mutable } => {
                parts.push(word_if(*mutable, "mut"));
                parts.push("self".to_owned());
                assert(texts(parts@) =~= seq![self.attrs@, text_if(*mutable, "mut"@), "self"@]);
            },
            ReceiverShape::Reference { lifetime, mutable } => {
                parts.push("&".to_owned());
                parts.push(word_or_empty(lifetime));
                parts.push(word_if(*mutable, "mut"));
                parts.push("self".to_owned());
                assert(texts(parts@) =~= seq![
                    self.attrs@,
                    "&"@,
                    text_or_empty(text_opt(*lifetime)),
                    text_if(*mutable, "mut"@),
                    "self"@,
                ]);
            },
        }
        join_words(&parts)
    }
}

impl PatternModel {
    /// The pattern as source text: `ref mut name @ subpattern`, each part
    /// but the name as far as it is there.
    pub open spec fn source(self) -> Seq<char> {
        match self {
            PatternModel::Ident { by_ref, mutable, name, subpattern } => words(
                seq![
                    text_if(by_ref, "ref"@),
                    text_if(mutable, "mut"@),
                    name,
                    text_if(subpattern is Some, "@"@),
                    text_or_empty(subpattern),
                ],
            ),
            PatternModel::Other(text) => text,
        }
    }
}

impl Pattern {
    /// The pattern as source text.
    pub fn to_source(&self) -> (text: String)
        ensures
            text@ == self@.source(),
    {
        match self {
            Pattern::Ident { by_ref, mutable, name, subpattern } => {
                let mut parts: Vec<String> = Vec::new();
                parts.push(word_if(*by_ref, "ref"));
                parts.push(word_if(*mutable, "mut"));
                parts.push(name.clone());
                parts.push(word_if(subpattern.is_some(), "@"));
                parts.push(word_or_empty(subpattern));
                assert(texts(parts@) =~= seq![
                    text_if(*by_ref, "ref"@),
                    text_if(*mutable, "mut"@),
                    name@,
                    text_if(text_opt(*subpattern) is Some, "@"@),
                    text_or_empty(text_opt(*subpattern)),
                ]);
                join_words(&parts)
            },
            Pattern::Other(text) => text.clone(),
        }
    }
}

impl TypedArgModel {
    /// The input as source text: `pattern : type`, after its attributes.
    pub open spec fn source(self) -> Seq<char> {
        words(seq![self.attrs, self.pattern.source(), ":"@, self.ty.source()])
    }
}

impl TypedArg {
    /// The input as source text.
    pub fn to_source(&self) -> (text: String)
        ensures
            text@ == self@.source(),
    {
        let mut parts: Vec<String> = Vec::new();
        parts.push(self.attrs.clone());
        parts.push(self.pattern.to_source());
        parts.push(":".to_owned());
        parts.push(self.ty.to_source());
        assert(texts(parts@) =~= seq![
            self.attrs@,
            self.pattern@.source(),
            ":"@,
            self.ty@.source(),
        ]);
        join_words(&parts)
    }
}

impl MethodBodyModel {
    /// The body as source text. A delegating body is the block
    /// `{ < implementor as interface > :: method ( argument , self ) }`.
    pub open spec fn source(self) -> Seq<char> {
        match self {
            MethodBodyModel::Block(text) => text,
            MethodBodyModel::Delegation { implementor, interface, method, argument } => words(
                seq![
                    "{"@,
                    "<"@,
                    implementor.source(),
                    "as"@,
                    interface.source(),
                    ">"@,
                    "::"@,
                    method,
                    "("@,
                    argument,
                    ","@,
                    "self"@,
                    ")"@,
                    "}"@,
                ],
            ),
        }
    }
}

impl MethodBody {
    /// The body as source text.
    pub fn to_source(&self) -> (text: String)
        ensures
            text@ == self@.source(),
    {
        match self {
            MethodBody::Block(text) => text.clone(),
            MethodBody::Delegation { implementor, interface, method, argument } => {
                let mut parts: Vec<String> = Vec::new();
                parts.push("{".to_owned());
                parts.push("<".to_owned());
                parts.push(implementor.to_source());
                parts.push("as".to_owned());
                parts.push(interface.to_source());
                parts.push(">".to_owned());
                parts.push("::".to_owned());
                parts.push(method.clone());
                parts.push("(".to_owned());
                parts.push(argument.clone());
                parts.push(",".to_owned());
                parts.push("self".to_owned());
                parts.push(")".to_owned());
                parts.push("}".to_owned());
                assert(texts(parts@) =~= seq![
                    "{"@,
                    "<"@,
                    implementor@.source(),
                    "as"@,
                    interface@.source(),
                    ">"@,
                    "::"@,
                    method@,
                    "("@,
                    argument@,
                    ","@,
                    "self"@,
                    ")"@,
                    "}"@,
                ]);
                join_words(&parts)
            },
        }
    }
}

impl MethodModel {
    /// The source texts of the inputs, in order: the receiver where there is
    /// one, the other inputs, and `...` where the method is variadic.
    pub open spec fn input_sources(self) -> Seq<Seq<char>> {
        let receiver = match self.receiver {
            Some(r) => seq![r.source()],
            None => Seq::empty(),
        };
        let params = Seq::new(self.params.len(), |i: int| self.params[i].source());
        let dots = if self.variadic {
            seq!["..."@]
        } else {
            Seq::empty()
        };
        receiver + params + dots
    }

    /// The method as source text: its attributes, then
    /// `qualifiers fn name generics ( inputs ) output where_clause body`,
    /// the inputs with commas between them.
    pub open spec fn source(self) -> Seq<char> {
        words(
            seq![
                words(self.attrs),
                self.qualifiers,
                "fn"@,
                self.name,
                self.generics,
                "("@,
                join(self.input_sources(), " , "@),
                ")"@,
                self.output,
                self.where_clause,
                self.body.source(),
            ],
        )
    }
}

impl MethodItem {
    /// The source texts of the inputs, in order.
    pub fn input_sources(&self) -> (sources: Vec<String>)
        ensures
            texts(sources@) == self@.input_sources(),
    {
        let mut sources: Vec<String> = Vec::new();
        match &self.receiver {
            Some(receiver) => {
                sources.push(receiver.to_source());
            },
            None => {},
        }
        let ghost first: Seq<Seq<char>> = match self@.receiver {
            Some(r) => seq![r.source()],
            None => Seq::empty(),
        };
        assert(texts(sources@) =~= first);
        let mut i: usize = 0;
        while i < self.params.len()
            invariant
                i <= self.params.len(),
                sources.len() == first.len() + i,
                first.len() <= 1,
                forall|j: int| 0 <= j < first.len() ==> #[trigger] sources[j]@ == first[j],
                forall|j: int|
                    0 <= j < i ==> (#[trigger] sources[first.len() + j])@
                        == self.params[j]@.source(),
            decreases self.params.len() - i,
        {
            sources.push(self.params[i].to_source());
            i += 1;
        }
        let ghost params = Seq::new(
            self@.params.len(),
            |j: int| self@.params[j].source(),
        );
        assert(texts(sources@) =~= first + params) by {
            assert forall|k: int| 0 <= k < sources.len() implies texts(sources@)[k] == (first
                + params)[k] by {
                if k >= first.len() {
                    let j = k - first.len();
                    assert(sources[first.len() + j]@ == self.params[j]@.source());
                }
            }
        }
        if self.variadic {
            sources.push("...".to_owned());
        }
        assert(texts(sources@) =~= self@.input_sources());
        sources
    }

    /// The method as source text.
    pub fn to_source(&self) -> (text: String)
        ensures
            text@ == self@.source(),
    {
        let inputs = self.input_sources();
        let mut parts: Vec<String> = Vec::new();
        parts.push(join_words(&self.attrs));
        parts.push(self.qualifiers.clone());
        parts.push("fn".to_owned());
        parts.push(self.name.clone());
        parts.push(self.generics.clone());
        parts.push("(".to_owned());
        parts.push(join_texts(&inputs, " , "));
        parts.push(")".to_owned());
        parts.push(self.output.clone());
        parts.push(self.where_clause.clone());
        parts.push(self.body.to_source());
        assert(texts(parts@) =~= seq![
            words(self@.attrs),
            self.qualifiers@,
            "fn"@,
            self.name@,
            self.generics@,
            "("@,
            join(self@.input_sources(), " , "@),
            ")"@,
            self.output@,
            self.where_clause@,
            self.body@.source(),
        ]);
        join_words(&parts)
    }
}

impl OutputBindingModel {
    /// The binding as source text. A projection is
    /// `< implementor as interface > :: name`.
    pub open spec fn source(self) -> Seq<char> {
        match self {
            OutputBindingModel::Type(ty) => ty.source(),
            OutputBindingModel::Projection { implementor, interface, name } => words(
                seq!["<"@, implementor.source(), "as"@, interface.source(), ">"@, "::"@, name],
            ),
        }
    }
}

impl OutputBinding {
    /// The binding as source text.
    pub fn to_source(&self) -> (text: String)
        ensures
            text@ == self@.source(),
    {
        match self {
            OutputBinding::Type(ty) => ty.to_source(),
            OutputBinding::Projection { implementor, interface, name } => {
                let mut parts: Vec<String> = Vec::new();
                parts.push("<".to_owned());
                parts.push(implementor.to_source());
                parts.push("as".to_owned());
                parts.push(interface.to_source());
                parts.push(">".to_owned());
                parts.push("::".to_owned());
                parts.push(name.clone());
                assert(texts(parts@) =~= seq![
                    "<"@,
                    implementor@.source(),
                    "as"@,
                    interface@.source(),
                    ">"@,
                    "::"@,
                    name@,
                ]);
                join_words(&parts)
            },
        }
    }
}

impl OutputTypeModel {
    /// The output type as source text: its attributes, then
    /// `qualifiers type name generics = binding where_clause ;`.
    pub open spec fn source(self) -> Seq<char> {
        words(
            seq![
                self.attrs,
                self.qualifiers,
                "type"@,
                self.name,
                self.generics,
                "="@,
                self.binding.source(),
                self.where_clause,
                ";"@,
            ],
        )
    }
}

impl OutputTypeItem {
    /// The output type as source text.
    pub fn to_source(&self) -> (text: String)
        ensures
            text@ == self@.source(),
    {
        let mut parts: Vec<String> = Vec::new();
        parts.push(self.attrs.clone());
        parts.push(self.qualifiers.clone());
        parts.push("type".to_owned());
        parts.push(self.name.clone());
        parts.push(self.generics.clone());
        parts.push("=".to_owned());
        parts.push(self.binding.to_source());
        parts.push(self.where_clause.clone());
        parts.push(";".to_owned());
        assert(texts(parts@) =~= seq![
            self.attrs@,
            self.qualifiers@,
            "type"@,
            self.name@,
            self.generics@,
            "="@,
            self.binding@.source(),
            self.where_clause@,
            ";"@,
        ]);
        join_words(&parts)
    }
}

impl MemberModel {
    /// The member as source text.
    pub open spec fn source(self) -> Seq<char> {
        match self {
            MemberModel::Method(method) => method.source(),
            MemberModel::OutputType(item) => item.source(),
            MemberModel::Other(text) => text,
        }
    }
}

impl Member {
    /// The member as source text.
    pub fn to_source(&self) -> (text: String)
        ensures
            text@ == self@.source(),
    {
        match self {
            Member::Method(method) => method.to_source(),
            Member::OutputType(item) => item.to_source(),
            Member::Other(text) => text.clone(),
        }
    }
}

impl RecordModel {
    /// The source texts of the members, in order.
    pub open spec fn member_sources(self) -> Seq<Seq<char>> {
        Seq::new(self.items.len(), |i: int| self.items[i].source())
    }

    /// The interface and `for`, or nothing for an inherent implementation.
    pub open spec fn interface_source(self) -> Seq<char> {
        match self.interface {
            Some(interface) => words(seq![interface.source(), "for"@]),
            None => Seq::empty(),
        }
    }

    /// The record as source text: its attributes, then
    /// `qualifiers impl generics interface for self_ty where_clause { members }`.
    pub open spec fn source(self) -> Seq<char> {
        words(
            seq![
                self.attrs,
                self.qualifiers,
                "impl"@,
                self.generics,
                self.interface_source(),
                self.self_ty.source(),
                self.where_clause,
                "{"@,
                self.inner_attrs,
                words(self.member_sources()),
                "}"@,
            ],
        )
    }
}

impl ImplRecord {
    /// The record as source text.
    pub fn to_source(&self) -> (text: String)
        ensures
            text@ == self@.source(),
    {
        let mut members: Vec<String> = Vec::new();
        let mut i: usize = 0;
        while i < self.items.len()
            invariant
                i <= self.items.len(),
                members.len() == i,
                forall|j: int| 0 <= j < i ==> members[j]@ == self.items[j]@.source(),
            decreases self.items.len() - i,
        {
            members.push(self.items[i].to_source());
            i += 1;
        }
        assert(texts(members@) =~= self@.member_sources());
        let interface = match &self.interface {
            Some(interface) => {
                let mut parts: Vec<String> = Vec::new();
                parts.push(interface.to_source());
                parts.push("for".to_owned());
                assert(texts(parts@) =~= seq![interface@.source(), "for"@]);
                join_words(&parts)
            },
            None => String::new(),
        };
        let mut parts: Vec<String> = Vec::new();
        parts.push(self.attrs.clone());
        parts.push(self.qualifiers.clone());
        parts.push("impl".to_owned());
        parts.push(self.generics.clone());
        parts.push(interface);
        parts.push(self.self_ty.to_source());
        parts.push(self.where_clause.clone());
        parts.push("{".to_owned());
        parts.push(self.inner_attrs.clone());
        parts.push(join_words(&members));
        parts.push("}".to_owned());
        assert(texts(parts@) =~= seq![
            self.attrs@,
            self.qualifiers@,
            "impl"@,
            self.generics@,
            self@.interface_source(),
            self.self_ty@.source(),
            self.where_clause@,
            "{"@,
            self.inner_attrs@,
            words(self@.member_sources()),
            "}"@,
        ]);
        join_words(&parts)
    }
}

} // verus!
