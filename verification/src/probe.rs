//! The probe: a configuration, the invocation of the compiler that follows
//! from it, and the probing entry points.
//!
//! Starting the compiler is not done here. Each entry point takes the
//! compiler as a function `run`, which is handed an [`Invocation`] and a
//! program, carries out one attempt and says how it ended: `Ok` with whether
//! the compiler exited with success, or `Err` with the fault that kept it from
//! being started or talked to. What is handed to `run`, how often, and what
//! becomes of its results is decided here.

use vstd::prelude::*;
use vstd::string::StringExecFns;
use crate::invocation::{Invocation, InvocationView, Platform, Stream};
use crate::retry::{is_course, retry_n_times, RunState};
use crate::snippet::{
    expression_program, type_program, typed_expression_program, wrap_expression, wrap_type,
    wrap_typed_expression,
};

verus! {

/// The name of the compiler that is used where the environment names none.
pub const DEFAULT_RUSTC: &'static str = "rustc";

/// The environment variable that names the compiler.
pub const RUSTC_VARIABLE: &'static str = "RUSTC";

/// A probe's configuration. Make one with [`Probe::new`], change it with the
/// setters, which can be chained, and probe with one of the probing methods,
/// none of which changes it.
#[derive(Clone, Debug)]
pub struct Probe {
    debug: bool,
    emit_type: &'static str,
    retries: usize,
    rustc: String,
    rustc_args: Vec<String>,
    platform: Platform,
}

/// The mathematical content of a [`Probe`].
pub struct ProbeView {
    /// Whether the compiler is asked to be verbose.
    pub debug: bool,
    /// The kind of output that the compiler is asked to emit.
    pub emit_type: Seq<char>,
    /// How many more attempts may follow a first attempt that faults.
    pub retries: usize,
    /// The path or name of the compiler.
    pub rustc: Seq<char>,
    /// The arguments that the caller added, in the order of adding.
    pub rustc_args: Seq<Seq<char>>,
    /// The platform, for the path of the null device.
    pub platform: Platform,
}

impl ProbeView {
    /// The configuration of a new probe: the compiler that the environment
    /// names, or else `rustc`; output of kind `obj`; two retries; no added
    /// arguments; not verbose.
    pub open spec fn initial(rustc_env: Option<Seq<char>>, platform: Platform) -> ProbeView {
        ProbeView {
            debug: false,
            emit_type: "obj"@,
            retries: 2,
            rustc: match rustc_env {
                Some(path) => path,
                None => DEFAULT_RUSTC@,
            },
            rustc_args: Seq::empty(),
            platform,
        }
    }

    /// The argument that asks for output of the configured kind and sends it
    /// to the null device.
    pub open spec fn emit_argument(self) -> Seq<char> {
        "--emit="@ + self.emit_type + "="@ + self.platform.null_device_path()
    }

    /// The arguments of the compiler, in order: the emit argument; `-`, for a
    /// program on standard input; the added arguments; and last, when
    /// verbose, `--verbose`.
    pub open spec fn arguments(self) -> Seq<Seq<char>> {
        seq![self.emit_argument(), "-"@] + self.rustc_args + if self.debug {
            seq!["--verbose"@]
        } else {
            Seq::empty()
        }
    }

    /// The environment variables set for the compiler: when verbose, the one
    /// that asks for full backtraces.
    pub open spec fn environment(self) -> Seq<(Seq<char>, Seq<char>)> {
        if self.debug {
            seq![("RUST_BACKTRACE"@, "full"@)]
        } else {
            Seq::empty()
        }
    }

    /// The invocation that every attempt of a probe with this configuration
    /// makes. The program comes in by a pipe; what the compiler writes is
    /// discarded, verbose or not.
    pub open spec fn invocation(self) -> InvocationView {
        InvocationView {
            program: self.rustc,
            args: self.arguments(),
            env: self.environment(),
            stdin: Stream::Piped,
            stdout: Stream::Null,
            stderr: Stream::Null,
        }
    }

    /// The line that tells the user which program is about to be tried.
    pub open spec fn echo_line(code: Seq<char>) -> Seq<char> {
        "probing: "@ + code
    }
}

impl View for Probe {
    type V = ProbeView;

    closed spec fn view(&self) -> ProbeView {
        ProbeView {
            debug: self.debug,
            emit_type: self.emit_type@,
            retries: self.retries,
            rustc: self.rustc@,
            rustc_args: self.rustc_args.deep_view(),
            platform: self.platform,
        }
    }
}

/// Whether `result` is a result that `run` can give when it is handed an
/// invocation with the content `invocation` and the program `code`.
pub open spec fn compiler_gives<E, F: Fn(&Invocation, &str) -> Result<bool, E>>(
    run: F,
    invocation: InvocationView,
    code: Seq<char>,
    result: Result<bool, E>,
) -> bool {
    exists|handed: Invocation, program: &str|
        handed@ == invocation && program@ == code && #[trigger] call_ensures(
            run,
            (&handed, program),
            result,
        )
}

/// Whether `run` can be handed every invocation with the content `invocation`
/// together with the program `code`.
pub open spec fn compiler_takes<E, F: Fn(&Invocation, &str) -> Result<bool, E>>(
    run: F,
    invocation: InvocationView,
    code: Seq<char>,
) -> bool {
    forall|handed: Invocation, program: &str|
        handed@ == invocation && program@ == code ==> #[trigger] call_requires(
            run,
            (&handed, program),
        )
}

/// Whether `attempts` is a full course of a probe: every entry is a result of
/// handing `run` the invocation and the program, and with `retries` retries
/// allowed the run is over with the last entry and not before it.
pub open spec fn is_probe_course<E, F: Fn(&Invocation, &str) -> Result<bool, E>>(
    run: F,
    invocation: InvocationView,
    code: Seq<char>,
    retries: usize,
    attempts: Seq<Result<bool, E>>,
) -> bool {
    &&& attempts.len() > 0
    &&& forall|i: int|
        0 <= i < attempts.len() ==> compiler_gives(run, invocation, code, #[trigger] attempts[i])
    &&& RunState::run(retries, attempts).is_terminal()
    &&& !RunState::run(retries, attempts.drop_last()).is_terminal()
}

/// What a probe for the program `code` comes to: `result` is the outcome of
/// a full course of attempts, each of which handed `run` the invocation of
/// the configuration `probe` and `code`.
pub open spec fn probe_outcome<E, F: Fn(&Invocation, &str) -> Result<bool, E>>(
    probe: ProbeView,
    run: F,
    code: Seq<char>,
    result: Result<bool, E>,
) -> bool {
    &&& compiler_gives(run, probe.invocation(), code, result)
    &&& exists|attempts: Seq<Result<bool, E>>| #[trigger]
        is_probe_course(run, probe.invocation(), code, probe.retries, attempts) && RunState::run(
            probe.retries,
            attempts,
        ).outcome() == Some(result)
}

/// Whether `run` never faults on the invocation and the program.
pub open spec fn compiler_never_faults<E, F: Fn(&Invocation, &str) -> Result<bool, E>>(
    run: F,
    invocation: InvocationView,
    code: Seq<char>,
) -> bool {
    forall|result: Result<bool, E>| #[trigger]
        compiler_gives(run, invocation, code, result) ==> result is Ok
}

impl Probe {
    /// A probe with the default configuration. `rustc_env` is the value of
    /// the environment variable [`RUSTC_VARIABLE`], where it is set.
    pub fn new(rustc_env: Option<&str>, platform: Platform) -> (probe: Probe)
        ensures
            probe@ == ProbeView::initial(
                match rustc_env {
                    Some(path) => Some(path@),
                    None => None,
                },
                platform,
            ),
    {
        let rustc = match rustc_env {
            Some(path) => String::from_str(path),
            None => String::from_str(DEFAULT_RUSTC),
        };
        let rustc_args: Vec<String> = Vec::new();
        assert(rustc_args.deep_view() =~= Seq::<Seq<char>>::empty());
        Probe { debug: false, emit_type: "obj", retries: 2, rustc, rustc_args, platform }
    }

    /// Adds an argument to those passed to the compiler.
    pub fn arg(&mut self, arg: &str) -> (ret: &mut Self)
        ensures
            *final(self) == *final(ret),
            ret@ == (ProbeView { rustc_args: old(self)@.rustc_args.push(arg@), ..old(self)@ }),
    {
        self.rustc_args.push(String::from_str(arg));
        assert(self.rustc_args.deep_view() =~= old(self).rustc_args.deep_view().push(arg@));
        self
    }

    /// Adds several arguments, in their order, to those passed to the
    /// compiler.
    pub fn args(&mut self, args: &[&str]) -> (ret: &mut Self)
        ensures
            *final(self) == *final(ret),
            ret@ == (ProbeView {
                rustc_args: old(self)@.rustc_args + args.deep_view(),
                ..old(self)@
            }),
    {
        let mut i: usize = 0;
        while i < args.len()
            invariant
                i <= args.len(),
                self@ == (ProbeView {
                    rustc_args: old(self)@.rustc_args + args.deep_view().take(i as int),
                    ..old(self)@
                }),
            decreases args.len() - i,
        {
            let ghost before = self.rustc_args.deep_view();
            self.rustc_args.push(String::from_str(args[i]));
            assert(self.rustc_args.deep_view() =~= before.push(args[i as int]@));
            assert(args.deep_view().take(i + 1) =~= args.deep_view().take(i as int).push(
                args[i as int]@,
            ));
            i += 1;
        }
        assert(args.deep_view().take(i as int) =~= args.deep_view());
        self
    }

    /// Sets whether the compiler is asked to be verbose and the programs
    /// tried are shown. At first it is not.
    pub fn debug(&mut self, debug: bool) -> (ret: &mut Self)
        ensures
            *final(self) == *final(ret),
            ret@ == (ProbeView { debug, ..old(self)@ }),
    {
        self.debug = debug;
        self
    }

    /// Sets the kind of output that the compiler is asked to emit. At first
    /// it is `obj`.
    pub fn emit(&mut self, emit_type: &'static str) -> (ret: &mut Self)
        ensures
            *final(self) == *final(ret),
            ret@ == (ProbeView { emit_type: emit_type@, ..old(self)@ }),
    {
        self.emit_type = emit_type;
        self
    }

    /// Sets how many more attempts may follow a first attempt that faults.
    /// At first it is 2.
    pub fn retries(&mut self, retries: usize) -> (ret: &mut Self)
        ensures
            *final(self) == *final(ret),
            ret@ == (ProbeView { retries, ..old(self)@ }),
    {
        self.retries = retries;
        self
    }

    /// Sets the path or name of the compiler.
    pub fn rustc(&mut self, rustc: &str) -> (ret: &mut Self)
        ensures
            *final(self) == *final(ret),
            ret@ == (ProbeView { rustc: rustc@, ..old(self)@ }),
    {
        self.rustc = String::from_str(rustc);
        self
    }

    /// The argument that asks for output of the configured kind and sends it
    /// to the null device.
    pub fn build_emit(&self) -> (argument: String)
        ensures
            argument@ == self@.emit_argument(),
    {
        let mut argument = String::from_str("--emit=");
        argument.append(self.emit_type);
        argument.append("=");
        argument.append(self.platform.null_device());
        argument
    }

    /// The invocation that every attempt of a probe makes.
    pub fn invocation(&self) -> (invocation: Invocation)
        ensures
            invocation@ == self@.invocation(),
    {
        let mut args: Vec<String> = Vec::new();
        args.push(self.build_emit());
        args.push(String::from_str("-"));
        let mut i: usize = 0;
        while i < self.rustc_args.len()
            invariant
                i <= self.rustc_args.len(),
                args.deep_view() == seq![self@.emit_argument(), "-"@]
                    + self.rustc_args.deep_view().take(i as int),
            decreases self.rustc_args.len() - i,
        {
            let ghost before = args.deep_view();
            args.push(self.rustc_args[i].clone());
            assert(args.deep_view() =~= before.push(self.rustc_args[i as int]@));
            assert(self.rustc_args.deep_view().take(i + 1) =~= self.rustc_args.deep_view().take(
                i as int,
            ).push(self.rustc_args[i as int]@));
            i += 1;
        }
        assert(self.rustc_args.deep_view().take(i as int) =~= self.rustc_args.deep_view());
        let mut env: Vec<(String, String)> = Vec::new();
        assert(env.deep_view() =~= Seq::<(Seq<char>, Seq<char>)>::empty());
        if self.debug {
            args.push(String::from_str("--verbose"));
            env.push((String::from_str("RUST_BACKTRACE"), String::from_str("full")));
            assert(env.deep_view() =~= seq![("RUST_BACKTRACE"@, "full"@)]);
        }
        assert(args.deep_view() =~= self@.arguments());
        Invocation {
            program: self.rustc.clone(),
            args,
            env,
            stdin: Stream::Piped,
            stdout: Stream::Null,
            stderr: Stream::Null,
        }
    }

    /// The line to show the user before the program `code` is tried: there is
    /// one when the probe is verbose, and none otherwise.
    pub fn echo(&self, code: &str) -> (line: Option<String>)
        ensures
            self@.debug ==> line is Some && line->0@ == ProbeView::echo_line(code@),
            !self@.debug ==> line is None,
    {
        if self.debug {
            let mut line = String::from_str("probing: ");
            line.append(code);
            Some(line)
        } else {
            None
        }
    }

    /// Probes whether the whole program `code` compiles: `Ok(true)` where the
    /// compiler exited with success, `Ok(false)` where it exited otherwise,
    /// and the last fault where it could not be started or talked to on the
    /// first attempt nor on any retry.
    pub fn probe_result<E, F>(&self, code: &str, run: F) -> (result: Result<bool, E>) where
        F: Fn(&Invocation, &str) -> Result<bool, E>,

        requires
            compiler_takes(run, self@.invocation(), code@),
        ensures
            probe_outcome(self@, run, code@, result),
    {
        let invocation = self.invocation();
        let compiler = &run;
        let attempt = || -> (outcome: Result<bool, E>)
            ensures
                call_ensures(*compiler, (&invocation, code), outcome),
            { compiler(&invocation, code) };
        let result = retry_n_times(self.retries, attempt);
        proof {
            let attempts = choose|attempts: Seq<Result<bool, E>>| #[trigger]
                is_course(attempt, self.retries, attempts) && RunState::run(
                    self.retries,
                    attempts,
                ).outcome() == Some(result);
            assert(is_probe_course(run, self@.invocation(), code@, self@.retries, attempts));
        }
        result
    }

    /// Probes whether the whole program `code` compiles, with a compiler that
    /// does not fault. Where it can fault, use [`Probe::probe_result`]: a fault
    /// has no place in the answer given here, and a caller that was not held
    /// to the precondition sees the process stop on one.
    pub fn probe<E, F>(&self, code: &str, run: F) -> (supported: bool) where
        F: Fn(&Invocation, &str) -> Result<bool, E>,

        requires
            compiler_takes(run, self@.invocation(), code@),
            compiler_never_faults(run, self@.invocation(), code@),
        ensures
            probe_outcome(self@, run, code@, Ok::<bool, E>(supported)),
    {
        match self.probe_result(code, run) {
            Ok(supported) => supported,
            Err(_) => unreached(),
        }
    }

    /// Probes whether `name` names a type, sized or not.
    pub fn probe_type_result<E, F>(&self, name: &str, run: F) -> (result: Result<bool, E>) where
        F: Fn(&Invocation, &str) -> Result<bool, E>,

        requires
            compiler_takes(run, self@.invocation(), type_program(name@)),
        ensures
            probe_outcome(self@, run, type_program(name@), result),
    {
        let program = wrap_type(name);
        self.probe_result(program.as_str(), run)
    }

    /// Probes whether `name` names a type, sized or not, with a compiler that
    /// does not fault.
    pub fn probe_type<E, F>(&self, name: &str, run: F) -> (supported: bool) where
        F: Fn(&Invocation, &str) -> Result<bool, E>,

        requires
            compiler_takes(run, self@.invocation(), type_program(name@)),
            compiler_never_faults(run, self@.invocation(), type_program(name@)),
        ensures
            probe_outcome(self@, run, type_program(name@), Ok::<bool, E>(supported)),
    {
        let program = wrap_type(name);
        self.probe(program.as_str(), run)
    }

    /// Probes whether `expression` compiles when its type is left to
    /// inference. An expression whose type cannot be inferred is turned down,
    /// well formed or not: see [`Probe::probe_typed_expression_result`].
    pub fn probe_expression_result<E, F>(&self, expression: &str, run: F) -> (result: Result<
        bool,
        E,
    >) where F: Fn(&Invocation, &str) -> Result<bool, E>
        requires
            compiler_takes(run, self@.invocation(), expression_program(expression@)),
        ensures
            probe_outcome(self@, run, expression_program(expression@), result),
    {
        let program = wrap_expression(expression);
        self.probe_result(program.as_str(), run)
    }

    /// Probes whether `expression` compiles when its type is left to
    /// inference, with a compiler that does not fault.
    pub fn probe_expression<E, F>(&self, expression: &str, run: F) -> (supported: bool) where
        F: Fn(&Invocation, &str) -> Result<bool, E>,

        requires
            compiler_takes(run, self@.invocation(), expression_program(expression@)),
            compiler_never_faults(run, self@.invocation(), expression_program(expression@)),
        ensures
            probe_outcome(self@, run, expression_program(expression@), Ok::<bool, E>(supported)),
    {
        let program = wrap_expression(expression);
        self.probe(program.as_str(), run)
    }

    /// Probes whether `expression` compiles at the type `name`.
    pub fn probe_typed_expression_result<E, F>(
        &self,
        expression: &str,
        name: &str,
        run: F,
    ) -> (result: Result<bool, E>) where F: Fn(&Invocation, &str) -> Result<bool, E>
        requires
            compiler_takes(run, self@.invocation(), typed_expression_program(expression@, name@)),
        ensures
            probe_outcome(self@, run, typed_expression_program(expression@, name@), result),
    {
        let program = wrap_typed_expression(expression, name);
        self.probe_result(program.as_str(), run)
    }

    /// Probes whether `expression` compiles at the type `name`, with a
    /// compiler that does not fault.
    pub fn probe_typed_expression<E, F>(&self, expression: &str, name: &str, run: F) -> (supported:
        bool) where F: Fn(&Invocation, &str) -> Result<bool, E>
        requires
            compiler_takes(run, self@.invocation(), typed_expression_program(expression@, name@)),
            compiler_never_faults(
                run,
                self@.invocation(),
                typed_expression_program(expression@, name@),
            ),
        ensures
            probe_outcome(
                self@,
                run,
                typed_expression_program(expression@, name@),
                Ok::<bool, E>(supported),
            ),
    {
        let program = wrap_typed_expression(expression, name);
        self.probe(program.as_str(), run)
    }
}

/// Whether what `run` gives depends on nothing but the content of what it is
/// handed: the compiler and all that it reads stay as they are.
pub open spec fn compiler_is_settled<E, F: Fn(&Invocation, &str) -> Result<bool, E>>(
    run: F,
) -> bool {
    forall|
        one: Invocation,
        code_one: &str,
        first: Result<bool, E>,
        other: Invocation,
        code_other: &str,
        second: Result<bool, E>,
    |
        one@ == other@ && code_one@ == code_other@ && #[trigger] call_ensures(
            run,
            (&one, code_one),
            first,
        ) && #[trigger] call_ensures(run, (&other, code_other), second) ==> first == second
}

/// Probing is repeatable: with the same configuration, the same program and
/// a settled compiler, two probes come to the same result.
pub proof fn lemma_repeated_probe_agrees<E, F: Fn(&Invocation, &str) -> Result<bool, E>>(
    probe: ProbeView,
    run: F,
    code: Seq<char>,
    first: Result<bool, E>,
    second: Result<bool, E>,
)
    requires
        compiler_is_settled(run),
        probe_outcome(probe, run, code, first),
        probe_outcome(probe, run, code, second),
    ensures
        first == second,
{
}

} // verus!
