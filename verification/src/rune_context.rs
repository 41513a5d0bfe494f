//! The script engine context: a compiled program and its runtime linkage.

use std::sync::Arc;
use vstd::prelude::*;

verus! {

#[verifier::external_type_specification]
#[verifier::external_body]
pub struct ExContext(rune::Context);

#[verifier::external_type_specification]
#[verifier::external_body]
pub struct ExContextError(rune::ContextError);

#[verifier::external_type_specification]
#[verifier::external_body]
pub struct ExModule(rune::Module);

#[verifier::external_type_specification]
#[verifier::external_body]
pub struct ExSources(rune::Sources);

#[verifier::external_type_specification]
#[verifier::external_body]
pub struct ExDiagnostics(rune::Diagnostics);

#[verifier::external_type_specification]
#[verifier::external_body]
pub struct ExBuildError(rune::BuildError);

#[verifier::external_type_specification]
#[verifier::external_body]
pub struct ExEmitError(rune::diagnostics::EmitError);

#[verifier::external_type_specification]
#[verifier::external_body]
pub struct ExArrayUnit(rune::runtime::unit::ArrayUnit);

#[verifier::external_type_specification]
#[verifier::external_body]
#[verifier::reject_recursive_types(S)]
pub struct ExUnit<S>(rune::Unit<S>);

#[verifier::external_type_specification]
#[verifier::external_body]
pub struct ExRuntimeContext(rune::runtime::RuntimeContext);

#[verifier::external_type_specification]
#[verifier::external_body]
pub struct ExAllocError(rune::alloc::Error);

#[verifier::external_type_specification]
#[verifier::external_body]
pub struct ExVm(rune::Vm);

#[verifier::external_type_specification]
#[verifier::external_body]
pub struct ExVmError(rune::runtime::VmError);

/// Why a script could not be loaded, run or read back.
#[derive(Debug)]
pub enum ScriptError {
    /// The native symbols could not be registered with the engine.
    BridgeRegistration(rune::ContextError),
    /// The diagnostics of the build could not be rendered.
    Emit(rune::diagnostics::EmitError),
    /// The source did not compile; `diagnostics` is what the compiler reported.
    Compile { error: rune::BuildError, diagnostics: Vec<u8> },
    /// The runtime linkage could not be resolved from the engine context;
    /// `diagnostics` is what the compiler reported on the build before.
    Runtime { error: rune::alloc::Error, diagnostics: Vec<u8> },
    /// The virtual machine faulted while it ran the entry point.
    Execution(rune::runtime::VmError),
    /// The entry point returned something that is not a sequence of weapons.
    Decode(rune::runtime::VmError),
}

/// The runtime linkage that a virtual machine is bound to: what
/// `rune::Vm::context` hands out.
pub uninterp spec fn vm_runtime(vm: rune::Vm) -> rune::runtime::RuntimeContext;

/// The compiled unit that a virtual machine is bound to: what
/// `rune::Vm::unit` hands out.
pub uninterp spec fn vm_unit(vm: rune::Vm) -> rune::Unit;

/// `rune::Vm::new` makes a virtual machine with an empty stack and stores the
/// two shared artifacts it is given; they are what `Vm::context` and
/// `Vm::unit` hand out afterwards. Nothing is compiled or copied.
pub assume_specification[ rune::Vm::new ](
    context: Arc<rune::runtime::RuntimeContext>,
    unit: Arc<rune::Unit>,
) -> (vm: rune::Vm)
    ensures
        vm_runtime(vm) == *context,
        vm_unit(vm) == *unit,
;

/// `Arc::clone` makes another pointer to the same allocation, so both
/// pointers hold one value.
#[verifier::external_body]
fn share<T>(shared: &Arc<T>) -> (again: Arc<T>)
    ensures
        *again == **shared,
{
    Arc::clone(shared)
}

/// `rune_modules::default_context` builds the engine context that holds the
/// default native modules; whether it succeeds is the engine's matter.
pub assume_specification[ rune_modules::default_context ]() -> (context: Result<
    rune::Context,
    rune::ContextError,
>)
;

/// The engine context that `rune::Context::install` leaves when it accepts
/// `module` into `base`.
pub uninterp spec fn with_module(base: rune::Context, module: rune::Module) -> rune::Context;

/// `rune::Context::install` adds the symbols of `module` to `context`, or
/// reports which of them it cannot accept. Whether it accepts them is the
/// engine's matter; where it does, the context it leaves is determined by the
/// context it found and the module.
#[verifier::external_body]
fn install(context: &mut rune::Context, module: rune::Module) -> (installed: Result<
    (),
    rune::ContextError,
>)
    ensures
        installed is Ok ==> *final(context) == with_module(*old(context), module),
{
    context.install(module)
}

/// `rune::Diagnostics::new` makes a collector for warnings and errors.
pub assume_specification[ rune::Diagnostics::new ]() -> (diagnostics: rune::Diagnostics)
;

/// Whether a collector holds no warning and no error: what
/// `rune::Diagnostics::is_empty` answers.
pub uninterp spec fn nothing_reported(diagnostics: rune::Diagnostics) -> bool;

/// `rune::Diagnostics::is_empty` tells whether nothing was reported.
pub assume_specification[ rune::Diagnostics::is_empty ](diagnostics: &rune::Diagnostics) -> (empty:
    bool)
    ensures
        empty == nothing_reported(*diagnostics),
;

/// `rune::prepare(..).with_context(..).with_diagnostics(..).build()` compiles
/// `sources` against `context` and collects what the compiler reports in
/// `diagnostics`. Nothing is claimed of the outcome: it depends on the
/// sources, on the context, and on the files that the sources import.
#[verifier::external_body]
fn build(
    sources: &mut rune::Sources,
    context: &rune::Context,
    diagnostics: &mut rune::Diagnostics,
) -> (built: Result<rune::Unit, rune::BuildError>) {
    rune::prepare(sources).with_context(context).with_diagnostics(diagnostics).build()
}

/// The text that `rune::Diagnostics::emit` writes for `diagnostics` on
/// `sources`, with ANSI colours.
pub uninterp spec fn rendering(diagnostics: rune::Diagnostics, sources: rune::Sources) -> Seq<u8>;

/// `rune::Diagnostics::emit` writes the report into an in-memory buffer of
/// `termcolor` that keeps ANSI colours; the bytes of that buffer are handed
/// out. Whether the report can be written is the engine's matter; the text
/// is determined by the diagnostics and the sources.
#[verifier::external_body]
fn render(diagnostics: &rune::Diagnostics, sources: &rune::Sources) -> (report: Result<
    Vec<u8>,
    rune::diagnostics::EmitError,
>)
    ensures
        report matches Ok(bytes) ==> bytes@ == rendering(*diagnostics, *sources),
{
    let mut buffer = rune::termcolor::Buffer::ansi();
    diagnostics.emit(&mut buffer, sources)?;
    Ok(buffer.into_inner())
}

/// The runtime linkage that `rune::Context::runtime` resolves from an engine
/// context.
pub uninterp spec fn linkage_of(context: rune::Context) -> rune::runtime::RuntimeContext;

/// `rune::Context::runtime` resolves the runtime linkage of an engine context:
/// a copy of the native functions and constants installed in it. It fails
/// only where memory for the copy cannot be had.
pub assume_specification[ rune::Context::runtime ](context: &rune::Context) -> (runtime: Result<
    rune::runtime::RuntimeContext,
    rune::alloc::Error,
>)
    ensures
        runtime matches Ok(linkage) ==> linkage == linkage_of(*context),
;

/// The report on a finished build: nothing where the compiler reported
/// nothing, else the rendered text of what it reported on `sources`.
pub fn report_of(diagnostics: &rune::Diagnostics, sources: &rune::Sources) -> (report: Result<
    Vec<u8>,
    rune::diagnostics::EmitError,
>)
    ensures
        nothing_reported(*diagnostics) ==> (report matches Ok(bytes) && bytes@.len() == 0),
        !nothing_reported(*diagnostics) ==> (report matches Ok(bytes) ==> bytes@ == rendering(
            *diagnostics,
            *sources,
        )),
{
    if diagnostics.is_empty() {
        Ok(Vec::new())
    } else {
        render(diagnostics, sources)
    }
}

/// What becomes of a step that registers native symbols with the engine: its
/// result as it is, its failure as a registration error.
pub fn registered<T>(outcome: Result<T, rune::ContextError>) -> (step: Result<T, ScriptError>)
    ensures
        step == match outcome {
            Ok(done) => Ok::<T, ScriptError>(done),
            Err(error) => Err::<T, _>(ScriptError::BridgeRegistration(error)),
        },
{
    match outcome {
        Ok(done) => Ok(done),
        Err(error) => Err(ScriptError::BridgeRegistration(error)),
    }
}

/// A compiled script together with the runtime linkage it was compiled against.
pub struct RuneContext {
    runtime: Arc<rune::runtime::RuntimeContext>,
    unit: Arc<rune::Unit>,
    diagnostics: Vec<u8>,
}

impl RuneContext {
    /// The runtime linkage shared by every virtual machine of this context.
    pub closed spec fn runtime(&self) -> rune::runtime::RuntimeContext {
        *self.runtime
    }

    /// The compiled unit shared by every virtual machine of this context.
    pub closed spec fn unit(&self) -> rune::Unit {
        *self.unit
    }

    /// The rendered diagnostics that the context keeps.
    pub closed spec fn report(&self) -> Seq<u8> {
        self.diagnostics@
    }

    /// What the compiler reported while this context was built, rendered as
    /// text; empty when it reported nothing.
    pub fn diagnostics(&self) -> (report: &Vec<u8>)
        ensures
            report@ == self.report(),
    {
        &self.diagnostics
    }

    /// Compiles `sources` against the default modules and `module`.
    ///
    /// The module is installed into the context that the sources are
    /// compiled against, and the runtime linkage of the new context is
    /// resolved from that same context. The diagnostics are rendered before
    /// the outcome of the build is looked at, so that warnings survive a
    /// successful build and a failed build carries its report.
    pub fn new(sources: rune::Sources, module: rune::Module) -> (made: Result<Self, ScriptError>)
        ensures
            made matches Ok(ready) ==> exists|base: rune::Context|
                ready.runtime() == linkage_of(#[trigger] with_module(base, module)),
            made matches Err(e) ==> e is BridgeRegistration || e is Emit || e is Compile
                || e is Runtime,
    {
        let mut sources = sources;
        let mut context = match registered(rune_modules::default_context()) {
            Ok(context) => context,
            Err(error) => {
                return Err(error);
            },
        };
        let ghost base = context;
        match registered(install(&mut context, module)) {
            Ok(()) => {},
            Err(error) => {
                return Err(error);
            },
        }
        let mut diagnostics = rune::Diagnostics::new();
        let built = build(&mut sources, &context, &mut diagnostics);
        let report = report_of(&diagnostics, &sources);
        match Self::compiled(built, report) {
            Ok((unit, report)) => Self::ready(unit, report, context.runtime()),
            Err(error) => Err(error),
        }
    }

    /// The verdict on a finished build: the unit and the report when the
    /// source compiled, a compile error that carries the report when it did
    /// not. A report that could not be rendered is reported first.
    pub fn compiled(
        built: Result<rune::Unit, rune::BuildError>,
        report: Result<Vec<u8>, rune::diagnostics::EmitError>,
    ) -> (verdict: Result<(rune::Unit, Vec<u8>), ScriptError>)
        ensures
            match (report, built) {
                (Err(e), _) => verdict == Err::<(rune::Unit, Vec<u8>), _>(ScriptError::Emit(e)),
                (Ok(d), Err(e)) => verdict == Err::<(rune::Unit, Vec<u8>), _>(
                    ScriptError::Compile { error: e, diagnostics: d },
                ),
                (Ok(d), Ok(u)) => verdict == Ok::<_, ScriptError>((u, d)),
            },
    {
        match report {
            Err(error) => Err(ScriptError::Emit(error)),
            Ok(diagnostics) => match built {
                Err(error) => Err(ScriptError::Compile { error, diagnostics }),
                Ok(unit) => Ok((unit, diagnostics)),
            },
        }
    }

    /// Puts a compiled unit and its runtime linkage behind shared pointers.
    /// A linkage that could not be resolved is a runtime error, which carries
    /// the report so that the warnings of the build are not lost.
    pub fn ready(
        unit: rune::Unit,
        report: Vec<u8>,
        runtime: Result<rune::runtime::RuntimeContext, rune::alloc::Error>,
    ) -> (made: Result<Self, ScriptError>)
        ensures
            match runtime {
                Ok(linkage) => made matches Ok(context) && context.runtime() == linkage
                    && context.unit() == unit && context.report() == report@,
                Err(e) => made == Err::<Self, _>(
                    ScriptError::Runtime { error: e, diagnostics: report },
                ),
            },
    {
        match runtime {
            Ok(linkage) => Ok(
                RuneContext { runtime: Arc::new(linkage), unit: Arc::new(unit), diagnostics: report },
            ),
            Err(error) => Err(ScriptError::Runtime { error, diagnostics: report }),
        }
    }

    /// A fresh virtual machine bound to the shared runtime and unit.
    pub fn vm(&self) -> (vm: rune::Vm)
        ensures
            vm_runtime(vm) == self.runtime(),
            vm_unit(vm) == self.unit(),
    {
        rune::Vm::new(share(&self.runtime), share(&self.unit))
    }
}

} // verus!
