//! The mutation driver. A run goes through its stages in order and once
//! each: the text is parsed, the target function located, the items mutated,
//! the items serialized, and the text written. Reading the file and writing
//! it back are the caller's part, so a text that does not parse is never
//! written back.
//!
//! The caller sees to it that no two runs work on the same file at once.

use vstd::prelude::*;
use vstd::string::*;
use crate::inject::{inject_into, injected, registration_of, registration_statement};
use crate::item::{Item, ItemView, item_views};
use crate::locate::{find_function, first_function_named, is_first_function_named};
use crate::merge::{merge_module, merged};
use crate::serialize::{rendered, serialize};
use crate::signature::{parameter_views, parameters_of, parse_extract_args};
use crate::syntax::{parse_items, parsed_source, ParseError};

verus! {

/// What became of the function that was to be extended.
#[derive(Clone, Copy, Debug, PartialEq, Eq, Structural)]
pub enum FunctionStep {
    /// The file has no function of the target name: nothing was injected.
    Absent,
    /// The registration was injected into the target function.
    Injected,
    /// The target function declares no parameter to register on: nothing was
    /// injected.
    NoParameters,
}

/// The outcome of a mutation: the file's new text, and what became of the
/// target function.
#[derive(Debug, PartialEq, Eq)]
pub struct Mutation {
    pub text: String,
    pub function_step: FunctionStep,
}

/// The name of the function that is extended where the caller names none.
pub fn default_target() -> (r: &'static str)
    ensures
        r@ == "configure"@,
{
    "configure"
}

/// What becomes of the function at place `at`.
pub open spec fn function_step_at(items: Seq<ItemView>, at: int) -> FunctionStep {
    if parameters_of(items[at]->Function_0.signature).len() == 0 {
        FunctionStep::NoParameters
    } else {
        FunctionStep::Injected
    }
}

/// What becomes of the target function in `items`.
pub open spec fn function_step_of(items: Seq<ItemView>, target: Seq<char>) -> FunctionStep {
    match first_function_named(items, target) {
        None => FunctionStep::Absent,
        Some(at) => function_step_at(items, at),
    }
}

/// The items after the registration of `module` is injected into the
/// function at place `at`, on that function's first parameter. A function
/// without parameters stays as it is.
pub open spec fn registered_at(items: Seq<ItemView>, at: int, module: Seq<char>) -> Seq<ItemView> {
    let function = items[at]->Function_0;
    let parameters = parameters_of(function.signature);
    if parameters.len() == 0 {
        items
    } else {
        items.update(
            at,
            ItemView::Function(injected(function, registration_of(parameters[0].name, module))),
        )
    }
}

/// The items after the registration of `module` is injected into the first
/// function called `target`. Without such a function the items stay as they
/// are.
pub open spec fn with_registration(
    items: Seq<ItemView>,
    target: Seq<char>,
    module: Seq<char>,
) -> Seq<ItemView> {
    match first_function_named(items, target) {
        None => items,
        Some(at) => registered_at(items, at, module),
    }
}

/// The items after a whole mutation: the registration injected, then the
/// module declared.
pub open spec fn mutated(items: Seq<ItemView>, target: Seq<char>, module: Seq<char>) -> Seq<
    ItemView,
> {
    merged(with_registration(items, target, module), module)
}

/// Injecting a registration changes no item but the target function, and
/// adds or removes none.
pub proof fn lemma_registration_keeps_other_items(
    items: Seq<ItemView>,
    target: Seq<char>,
    module: Seq<char>,
)
    ensures
        with_registration(items, target, module).len() == items.len(),
        forall|j: int|
            0 <= j < items.len() && first_function_named(items, target) != Some(j)
                ==> #[trigger] with_registration(items, target, module)[j] == items[j],
{
    match first_function_named(items, target) {
        None => {},
        Some(i) => {
            assert(is_first_function_named(items, target, i));
        },
    }
}

/// Injects the registration of `module` into the function at index `at`.
fn register_at(items: Vec<Item>, at: usize, module: &str) -> (r: (Vec<Item>, FunctionStep))
    requires
        at < items@.len(),
        item_views(items@)[at as int] is Function,
    ensures
        item_views(r.0@) == registered_at(item_views(items@), at as int, module@),
        r.1 == function_step_at(item_views(items@), at as int),
{
    let mut out = items;
    let item = out.remove(at);
    match item {
        Item::Function(function) => {
            let parameters = parse_extract_args(&function.signature);
            assert(parameter_views(parameters@).len() == parameters@.len());
            if parameters.len() == 0 {
                out.insert(at, Item::Function(function));
                assert(item_views(out@) =~= item_views(items@));
                (out, FunctionStep::NoParameters)
            } else {
                assert(parameter_views(parameters@)[0].name == parameters@[0].name@);
                let statement = registration_statement(parameters[0].name.as_str(), module);
                let extended = Item::Function(inject_into(function, statement));
                out.insert(at, extended);
                assert(item_views(out@) =~= item_views(items@).update(at as int, extended@));
                (out, FunctionStep::Injected)
            }
        },
        other => {
            out.insert(at, other);
            assert(item_views(out@) =~= item_views(items@));
            (out, FunctionStep::NoParameters)
        },
    }
}

/// Injects the registration of `module` into the first function called
/// `target`, and says what became of that function.
pub fn register_routes(items: Vec<Item>, target: &str, module: &str) -> (r: (
    Vec<Item>,
    FunctionStep,
))
    ensures
        item_views(r.0@) == with_registration(item_views(items@), target@, module@),
        r.1 == function_step_of(item_views(items@), target@),
{
    match find_function(&items, target) {
        None => (items, FunctionStep::Absent),
        Some(at) => register_at(items, at, module),
    }
}

/// Mutates the items of a file: the registration is injected into the
/// target function, and the module is declared. Where the registration
/// cannot be injected, the module is declared all the same.
pub fn mutate_items(items: Vec<Item>, target: &str, module: &str) -> (r: (
    Vec<Item>,
    FunctionStep,
))
    ensures
        item_views(r.0@) == mutated(item_views(items@), target@, module@),
        r.1 == function_step_of(item_views(items@), target@),
{
    let (registered, step) = register_routes(items, target, module);
    (merge_module(registered, module), step)
}

/// The stages of a run, in their order.
#[derive(Clone, Copy, Debug, PartialEq, Eq, Structural)]
pub enum Stage {
    Idle,
    Parsed,
    Located,
    Mutated,
    Serialized,
    Written,
}

/// One run of the driver. Each step takes the run from one stage to the
/// next; no step can be taken twice or out of turn.
pub struct Driver {
    stage: Stage,
    items: Vec<Item>,
    target: String,
    located: Option<usize>,
    function_step: FunctionStep,
    text: String,
}

impl Driver {
    /// The stage that the run has reached.
    pub closed spec fn stage(&self) -> Stage {
        self.stage
    }

    /// The items of the file, as the run holds them.
    pub closed spec fn items(&self) -> Seq<ItemView> {
        item_views(self.items@)
    }

    /// The name of the function that was looked for.
    pub closed spec fn target(&self) -> Seq<char> {
        self.target@
    }

    /// What became of the target function.
    pub closed spec fn function_step(&self) -> FunctionStep {
        self.function_step
    }

    /// The text that serialization gave.
    pub closed spec fn text(&self) -> Seq<char> {
        self.text@
    }

    /// What a run holds for its own use: once the target is located, its
    /// place.
    pub closed spec fn well_formed(&self) -> bool {
        self.stage == Stage::Located ==> match self.located {
            Some(at) => first_function_named(item_views(self.items@), self.target@) == Some(
                at as int,
            ) && is_first_function_named(item_views(self.items@), self.target@, at as int),
            None => first_function_named(item_views(self.items@), self.target@) is None,
        }
    }

    /// A run that has not started: it holds no items, no target and no
    /// text, and nothing has become of any function yet.
    pub fn new() -> (r: Driver)
        ensures
            r.well_formed(),
            r.stage() == Stage::Idle,
            r.items() == Seq::<ItemView>::empty(),
            r.target() == Seq::<char>::empty(),
            r.function_step() == FunctionStep::Absent,
            r.text() == Seq::<char>::empty(),
    {
        let run = Driver {
            stage: Stage::Idle,
            items: Vec::new(),
            target: String::new(),
            located: None,
            function_step: FunctionStep::Absent,
            text: String::new(),
        };
        assert(item_views(run.items@) =~= Seq::<ItemView>::empty());
        run
    }

    /// The stage that the run has reached.
    pub fn current_stage(&self) -> (r: Stage)
        ensures
            r == self.stage(),
    {
        self.stage
    }

    /// Parses the text of the file. A text that does not parse ends the run:
    /// there is nothing to go on with, and nothing to write.
    pub fn parse(self, source: &str) -> (r: Result<Driver, ParseError>)
        requires
            self.well_formed(),
            self.stage() == Stage::Idle,
        ensures
            match r {
                Ok(run) => run.well_formed() && run.stage() == Stage::Parsed && parsed_source(
                    source@,
                ) == Some(run.items()),
                Err(_) => parsed_source(source@) is None,
            },
    {
        match parse_items(source) {
            Err(error) => Err(error),
            Ok(items) => Ok(
                Driver {
                    stage: Stage::Parsed,
                    items,
                    target: self.target,
                    located: self.located,
                    function_step: self.function_step,
                    text: self.text,
                },
            ),
        }
    }

    /// Looks for the first function called `target`. The run goes on
    /// whether or not there is one.
    pub fn locate(self, target: &str) -> (r: Driver)
        requires
            self.well_formed(),
            self.stage() == Stage::Parsed,
        ensures
            r.well_formed(),
            r.stage() == Stage::Located,
            r.items() == self.items(),
            r.target() == target@,
    {
        let located = find_function(&self.items, target);
        Driver {
            stage: Stage::Located,
            items: self.items,
            target: String::from_str(target),
            located,
            function_step: self.function_step,
            text: self.text,
        }
    }

    /// Mutates the items: the registration of `module` is injected into the
    /// function that was located, if one was, and the module is declared.
    pub fn mutate(self, module: &str) -> (r: Driver)
        requires
            self.well_formed(),
            self.stage() == Stage::Located,
        ensures
            r.well_formed(),
            r.stage() == Stage::Mutated,
            r.items() == mutated(self.items(), self.target(), module@),
            r.function_step() == function_step_of(self.items(), self.target()),
            r.target() == self.target(),
    {
        let (registered, function_step) = match self.located {
            None => (self.items, FunctionStep::Absent),
            Some(at) => register_at(self.items, at, module),
        };
        Driver {
            stage: Stage::Mutated,
            items: merge_module(registered, module),
            target: self.target,
            located: self.located,
            function_step,
            text: self.text,
        }
    }

    /// Serializes the mutated items.
    pub fn serialize(self) -> (r: Driver)
        requires
            self.well_formed(),
            self.stage() == Stage::Mutated,
        ensures
            r.well_formed(),
            r.stage() == Stage::Serialized,
            r.items() == self.items(),
            r.function_step() == self.function_step(),
            r.text() == rendered(self.items()),
    {
        let text = serialize(&self.items);
        Driver {
            stage: Stage::Serialized,
            items: self.items,
            target: self.target,
            located: self.located,
            function_step: self.function_step,
            text,
        }
    }

    /// The outcome of a serialized run, for the caller to write.
    pub fn outcome(&self) -> (r: Mutation)
        requires
            self.well_formed(),
            self.stage() == Stage::Serialized,
        ensures
            r.text@ == self.text(),
            r.function_step == self.function_step(),
    {
        Mutation { text: self.text.clone(), function_step: self.function_step }
    }

    /// Ends the run, once the caller has written the text.
    pub fn written(self) -> (r: Driver)
        requires
            self.well_formed(),
            self.stage() == Stage::Serialized,
        ensures
            r.well_formed(),
            r.stage() == Stage::Written,
            r.items() == self.items(),
            r.function_step() == self.function_step(),
            r.text() == self.text(),
    {
        Driver {
            stage: Stage::Written,
            items: self.items,
            target: self.target,
            located: self.located,
            function_step: self.function_step,
            text: self.text,
        }
    }
}

/// Runs a whole mutation on the text of a file and returns the new text.
///
/// A text that does not parse gives an error and no text. Otherwise the
/// result is the serialization of the mutated items.
pub fn mutate_source(source: &str, target: &str, module: &str) -> (r: Result<
    Mutation,
    ParseError,
>)
    ensures
        match r {
            Ok(mutation) => parsed_source(source@) is Some && mutation.text@ == rendered(
                mutated(parsed_source(source@)->0, target@, module@),
            ) && mutation.function_step == function_step_of(parsed_source(source@)->0, target@),
            Err(_) => parsed_source(source@) is None,
        },
{
    match Driver::new().parse(source) {
        Err(error) => Err(error),
        Ok(run) => {
            let run = run.locate(target).mutate(module).serialize();
            Ok(run.outcome())
        },
    }
}

/// Declares a module in the text of a file and returns the new text: the
/// mutation without a target function.
///
/// A text that does not parse gives an error and no text. A text that
/// declares the module already comes back serialized and otherwise unchanged.
pub fn declare_module(source: &str, module: &str) -> (r: Result<String, ParseError>)
    ensures
        match r {
            Ok(text) => parsed_source(source@) is Some && text@ == rendered(
                merged(parsed_source(source@)->0, module@),
            ),
            Err(_) => parsed_source(source@) is None,
        },
{
    match parse_items(source) {
        Err(error) => Err(error),
        Ok(items) => Ok(serialize(&merge_module(items, module))),
    }
}

} // verus!
