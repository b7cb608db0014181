//! One invocation of the code executor, as a state machine.
//!
//! The session decides; the host performs. `RunSession::start` checks the
//! language tag and hands the host the first action. From then on the host
//! carries out each action — spawn a process and wait for it under a
//! timeout, write a file, remove a file — and reports what happened as an
//! [`Event`]; [`RunSession::on_event`] maps the report to the next action.
//! When the phase reaches `Finished`, the outcome is ready and every
//! temporary file the invocation created has had its removal requested.
//!
//! Keeping every decision here, on plain values, is what lets them be
//! verified: the host's side is nothing but carrying out one instruction at
//! a time.

use crate::encoding::decode_stream;
use crate::language::Language;
use crate::language::recognized;
use crate::language::spec_language_of;
use crate::outcome::ErrorKind;
use crate::outcome::ExecError;
use crate::outcome::ExecutionRequest;
use crate::outcome::ExecutionResult;
use crate::paths::spec_binary_path;
use crate::paths::spec_source_path;
use crate::paths::temp_binary_path;
use crate::paths::temp_source_path;
use vstd::pervasive::unreached;
use vstd::prelude::*;
use vstd::string::StringExecFns;
use vstd::utf8::decode_utf8;
use vstd::utf8::valid_utf8;

verus! {

/// One instruction from the session to its host.
#[derive(Debug)]
pub enum Action {
    /// Run `program` with `args` to completion, with both output streams
    /// piped, killing the process once `timeout_ms` milliseconds have
    /// passed.
    Spawn {
        /// The program to invoke.
        program: String,
        /// Its arguments, in order.
        args: Vec<String>,
        /// The allowed duration, in milliseconds.
        timeout_ms: u64,
    },
    /// Create (or truncate) the file named `path` with `contents`.
    WriteFile {
        /// The file to write.
        path: String,
        /// The text to write into it.
        contents: String,
    },
    /// Remove the file named `path`.
    RemoveFile {
        /// The file to remove.
        path: String,
    },
    /// Nothing is left to do; the outcome is ready.
    Finish,
}

/// The host's report on the action it performed.
#[derive(Debug)]
pub enum Event {
    /// The spawned process ran to completion within the allowed duration.
    Completed {
        /// True exactly when the process exited with status zero.
        exit_zero: bool,
        /// The bytes captured from its standard output.
        stdout: Vec<u8>,
        /// The bytes captured from its standard error.
        stderr: Vec<u8>,
        /// How long it ran, in milliseconds.
        duration_ms: u64,
    },
    /// The operating system could not create the process.
    SpawnFailed {
        /// The operating system's description of the failure.
        message: String,
    },
    /// The process outlived the allowed duration and was killed.
    TimedOut,
    /// The file was written.
    Wrote,
    /// The file could not be written.
    WriteFailed {
        /// The operating system's description of the failure.
        message: String,
    },
    /// The removal was attempted; `ok` says whether it succeeded.
    Removed {
        /// True when the file is gone.
        ok: bool,
    },
}

/// Where an invocation currently stands.
#[derive(Clone, Copy, Debug, PartialEq, Eq, Structural)]
pub enum Phase {
    /// The interpreter is running the source.
    RunningInterpreter,
    /// The temporary source file is being written.
    WritingSource,
    /// The compiler is running.
    Compiling,
    /// The compiled binary is running.
    RunningBinary,
    /// The outcome is decided; temporary files are being removed.
    Removing,
    /// The invocation is over and the outcome is ready.
    Finished,
}

/// The state of one invocation.
pub struct RunSession {
    /// The recognized language this invocation runs.
    pub language: Language,
    /// The source text.
    pub source: String,
    /// The identifier that makes this invocation's file names unique.
    pub run_id: String,
    /// The duration allowed to each spawned process, in milliseconds.
    pub timeout_ms: u64,
    /// Where the invocation stands.
    pub phase: Phase,
    /// The name of the temporary source file.
    pub src_path: String,
    /// The name of the temporary binary.
    pub bin_path: String,
    /// Files created on disk whose removal has not yet been requested,
    /// in the order of creation.
    pub pending_files: Vec<String>,
    /// The file whose removal the host is currently performing.
    pub removing: Option<String>,
    /// The decided outcome, once there is one.
    pub outcome: Option<Result<ExecutionResult, ExecError>>,
    /// Files whose removal the host reported as failed: observed, never
    /// escalated.
    pub cleanup_failures: Vec<String>,
}

/// Which reports make sense as the host's answer to the action that the
/// given phase is waiting on.
pub open spec fn event_fits(phase: Phase, e: Event) -> bool {
    match phase {
        Phase::RunningInterpreter => e is Completed || e is SpawnFailed || e is TimedOut,
        Phase::Compiling => e is Completed || e is SpawnFailed || e is TimedOut,
        Phase::RunningBinary => e is Completed || e is SpawnFailed || e is TimedOut,
        Phase::WritingSource => e is Wrote || e is WriteFailed,
        Phase::Removing => e is Removed,
        Phase::Finished => false,
    }
}

/// The action that hands the source inline to the interpreter.
pub open spec fn interpreter_spawn(a: Action, source: Seq<char>, timeout_ms: u64) -> bool {
    &&& a matches Action::Spawn { program, args, timeout_ms: t }
    &&& program@ == "python3"@
    &&& args@.len() == 2
    &&& args@[0]@ == "-c"@
    &&& args@[1]@ == source
    &&& t == timeout_ms
}

/// The action that compiles the temporary source file into the temporary
/// binary.
pub open spec fn compiler_spawn(a: Action, id: Seq<char>, timeout_ms: u64) -> bool {
    &&& a matches Action::Spawn { program, args, timeout_ms: t }
    &&& program@ == "rustc"@
    &&& args@.len() == 3
    &&& args@[0]@ == spec_source_path(id)
    &&& args@[1]@ == "-o"@
    &&& args@[2]@ == spec_binary_path(id)
    &&& t == timeout_ms
}

/// The action that runs the produced binary with no arguments.
pub open spec fn binary_spawn(a: Action, id: Seq<char>, timeout_ms: u64) -> bool {
    &&& a matches Action::Spawn { program, args, timeout_ms: t }
    &&& program@ == spec_binary_path(id)
    &&& args@.len() == 0
    &&& t == timeout_ms
}

/// The action that writes the source into the invocation's temporary file.
pub open spec fn write_source_action(a: Action, id: Seq<char>, source: Seq<char>) -> bool {
    &&& a matches Action::WriteFile { path, contents }
    &&& path@ == spec_source_path(id)
    &&& contents@ == source
}

/// The outcome of a program that ran to completion: its decoded streams and
/// its exit status, or the decode failure when a stream was not valid text.
pub open spec fn completed_outcome(
    o: Option<Result<ExecutionResult, ExecError>>,
    exit_zero: bool,
    out_bytes: Seq<u8>,
    err_bytes: Seq<u8>,
    duration_ms: u64,
) -> bool {
    if valid_utf8(out_bytes) && valid_utf8(err_bytes) {
        &&& o matches Some(Ok(res))
        &&& res.success == exit_zero
        &&& res.stdout@ == decode_utf8(out_bytes)
        &&& res.stderr@ == decode_utf8(err_bytes)
        &&& res.duration_ms == duration_ms
    } else {
        o matches Some(Err(ExecError::DecodeFailure))
    }
}

/// The outcome recorded when a process could not be created or was killed
/// after the allowed duration.
pub open spec fn failure_outcome(o: Option<Result<ExecutionResult, ExecError>>, e: Event) -> bool {
    match e {
        Event::SpawnFailed { message } => o matches Some(
            Err(ExecError::SpawnFailure { message: m }),
        ) && m@ == message@,
        Event::TimedOut => o matches Some(Err(ExecError::Timeout)),
        _ => false,
    }
}

/// The outcome recorded when the compiler exited non-zero: its decoded
/// diagnostics, or the decode failure when they were not valid text.
pub open spec fn compile_failure_outcome(
    o: Option<Result<ExecutionResult, ExecError>>,
    err_bytes: Seq<u8>,
) -> bool {
    if valid_utf8(err_bytes) {
        &&& o matches Some(Err(ExecError::CompileFailure { diagnostics }))
        &&& diagnostics@ == decode_utf8(err_bytes)
    } else {
        o matches Some(Err(ExecError::DecodeFailure))
    }
}

/// What never changes across a step: which invocation this is.
pub open spec fn frame_ok(pre: RunSession, post: RunSession) -> bool {
    &&& post.language == pre.language
    &&& post.source == pre.source
    &&& post.run_id == pre.run_id
    &&& post.timeout_ms == pre.timeout_ms
    &&& post.src_path == pre.src_path
    &&& post.bin_path == pre.bin_path
}

/// The step ended the invocation with nothing on disk to clean up.
pub open spec fn finished_now(pre: RunSession, post: RunSession, a: Action) -> bool {
    &&& post.phase is Finished
    &&& a is Finish
    &&& post.pending_files@ == pre.pending_files@
    &&& post.removing is None
    &&& post.cleanup_failures@ == pre.cleanup_failures@
}

/// The step decided the outcome with only the source file on disk, and asked
/// the host to remove that file.
pub open spec fn begin_cleanup_src(pre: RunSession, post: RunSession, a: Action) -> bool {
    &&& post.phase is Removing
    &&& post.pending_files@.len() == 0
    &&& post.removing matches Some(p) && p@ == pre.src_path@
    &&& post.cleanup_failures@ == pre.cleanup_failures@
    &&& a matches Action::RemoveFile { path } && path@ == pre.src_path@
}

/// The step decided the outcome with source file and binary on disk, and
/// asked the host to remove the binary first.
pub open spec fn begin_cleanup_bin(pre: RunSession, post: RunSession, a: Action) -> bool {
    &&& post.phase is Removing
    &&& post.pending_files@.len() == 1
    &&& post.pending_files@[0]@ == pre.src_path@
    &&& post.removing matches Some(p) && p@ == pre.bin_path@
    &&& post.cleanup_failures@ == pre.cleanup_failures@
    &&& a matches Action::RemoveFile { path } && path@ == pre.bin_path@
}

/// A step taken while the interpreter was running.
pub open spec fn interp_step(pre: RunSession, e: Event, post: RunSession, a: Action) -> bool {
    match e {
        Event::Completed { exit_zero, stdout, stderr, duration_ms } => {
            &&& finished_now(pre, post, a)
            &&& completed_outcome(post.outcome, exit_zero, stdout@, stderr@, duration_ms)
        },
        Event::SpawnFailed { .. } => {
            &&& finished_now(pre, post, a)
            &&& failure_outcome(post.outcome, e)
        },
        Event::TimedOut => {
            &&& finished_now(pre, post, a)
            &&& failure_outcome(post.outcome, e)
        },
        _ => false,
    }
}

/// A step taken while the temporary source file was being written.
pub open spec fn write_step(pre: RunSession, e: Event, post: RunSession, a: Action) -> bool {
    match e {
        Event::Wrote => {
            &&& post.phase is Compiling
            &&& post.pending_files@.len() == 1
            &&& post.pending_files@[0]@ == pre.src_path@
            &&& post.removing is None
            &&& post.outcome is None
            &&& post.cleanup_failures@ == pre.cleanup_failures@
            &&& compiler_spawn(a, pre.run_id@, pre.timeout_ms)
        },
        Event::WriteFailed { message } => {
            &&& finished_now(pre, post, a)
            &&& post.outcome matches Some(Err(ExecError::WriteFailure { message: m })) && m@
                == message@
        },
        _ => false,
    }
}

/// A step taken while the compiler was running.
pub open spec fn compile_step(pre: RunSession, e: Event, post: RunSession, a: Action) -> bool {
    match e {
        Event::Completed { exit_zero, stdout: _, stderr, duration_ms: _ } => {
            if exit_zero {
                &&& post.phase is RunningBinary
                &&& post.pending_files@.len() == 2
                &&& post.pending_files@[0]@ == pre.src_path@
                &&& post.pending_files@[1]@ == pre.bin_path@
                &&& post.removing is None
                &&& post.outcome is None
                &&& post.cleanup_failures@ == pre.cleanup_failures@
                &&& binary_spawn(a, pre.run_id@, pre.timeout_ms)
            } else {
                &&& begin_cleanup_src(pre, post, a)
                &&& compile_failure_outcome(post.outcome, stderr@)
            }
        },
        Event::SpawnFailed { .. } => {
            &&& begin_cleanup_src(pre, post, a)
            &&& failure_outcome(post.outcome, e)
        },
        Event::TimedOut => {
            &&& begin_cleanup_src(pre, post, a)
            &&& failure_outcome(post.outcome, e)
        },
        _ => false,
    }
}

/// A step taken while the produced binary was running.
pub open spec fn binary_step(pre: RunSession, e: Event, post: RunSession, a: Action) -> bool {
    match e {
        Event::Completed { exit_zero, stdout, stderr, duration_ms } => {
            &&& begin_cleanup_bin(pre, post, a)
            &&& completed_outcome(post.outcome, exit_zero, stdout@, stderr@, duration_ms)
        },
        Event::SpawnFailed { .. } => {
            &&& begin_cleanup_bin(pre, post, a)
            &&& failure_outcome(post.outcome, e)
        },
        Event::TimedOut => {
            &&& begin_cleanup_bin(pre, post, a)
            &&& failure_outcome(post.outcome, e)
        },
        _ => false,
    }
}

/// A step taken while a removal was in flight: record a failed removal,
/// then either ask for the next file or finish.
pub open spec fn remove_step(pre: RunSession, e: Event, post: RunSession, a: Action) -> bool {
    match e {
        Event::Removed { ok } => {
            &&& post.outcome == pre.outcome
            &&& (if ok {
                post.cleanup_failures@ == pre.cleanup_failures@
            } else {
                pre.removing matches Some(p) && post.cleanup_failures@
                    == pre.cleanup_failures@.push(p)
            })
            &&& (if pre.pending_files@.len() > 0 {
                &&& post.phase is Removing
                &&& post.pending_files@ == pre.pending_files@.drop_last()
                &&& post.removing == Some(pre.pending_files@.last())
                &&& a matches Action::RemoveFile { path } && path@ == pre.pending_files@.last()@
            } else {
                &&& post.phase is Finished
                &&& post.pending_files@ == pre.pending_files@
                &&& post.removing is None
                &&& a is Finish
            })
        },
        _ => false,
    }
}

/// One step of the session: from `pre`, the host reported `e`; the session
/// moved to `post` and instructed the host to perform `a`.
pub open spec fn step_spec(pre: RunSession, e: Event, post: RunSession, a: Action) -> bool {
    &&& frame_ok(pre, post)
    &&& match pre.phase {
        Phase::RunningInterpreter => interp_step(pre, e, post, a),
        Phase::WritingSource => write_step(pre, e, post, a),
        Phase::Compiling => compile_step(pre, e, post, a),
        Phase::RunningBinary => binary_step(pre, e, post, a),
        Phase::Removing => remove_step(pre, e, post, a),
        Phase::Finished => false,
    }
}

impl RunSession {
    /// Well-formedness: the file names belong to this invocation, and what
    /// is on disk, in flight, and decided agrees with the phase.
    pub open spec fn inv(self) -> bool {
        &&& self.src_path@ == spec_source_path(self.run_id@)
        &&& self.bin_path@ == spec_binary_path(self.run_id@)
        &&& (forall|j: int|
            0 <= j < self.cleanup_failures@.len() ==> (#[trigger] self.cleanup_failures@[j]@
                == self.src_path@ || self.cleanup_failures@[j]@ == self.bin_path@))
        &&& match self.phase {
            Phase::RunningInterpreter => {
                &&& !self.language.spec_is_compiled()
                &&& self.pending_files@.len() == 0
                &&& self.removing is None
                &&& self.outcome is None
            },
            Phase::WritingSource => {
                &&& self.language.spec_is_compiled()
                &&& self.pending_files@.len() == 0
                &&& self.removing is None
                &&& self.outcome is None
            },
            Phase::Compiling => {
                &&& self.language.spec_is_compiled()
                &&& self.pending_files@.len() == 1
                &&& self.pending_files@[0]@ == self.src_path@
                &&& self.removing is None
                &&& self.outcome is None
            },
            Phase::RunningBinary => {
                &&& self.language.spec_is_compiled()
                &&& self.pending_files@.len() == 2
                &&& self.pending_files@[0]@ == self.src_path@
                &&& self.pending_files@[1]@ == self.bin_path@
                &&& self.removing is None
                &&& self.outcome is None
            },
            Phase::Removing => {
                &&& self.language.spec_is_compiled()
                &&& self.outcome is Some
                &&& self.removing matches Some(p) && (p@ == self.src_path@ || p@ == self.bin_path@)
                &&& (self.pending_files@.len() == 0 || (self.pending_files@.len() == 1
                    && self.pending_files@[0]@ == self.src_path@ && (self.removing matches Some(p2)
                    && p2@ == self.bin_path@)))
            },
            Phase::Finished => {
                &&& self.outcome is Some
                &&& self.pending_files@.len() == 0
                &&& self.removing is None
            },
        }
    }

    /// Begins one invocation. An unrecognized language tag is rejected here,
    /// before anything is spawned or written; a recognized one yields the
    /// session and the first action for the host.
    pub fn start(req: ExecutionRequest, run_id: String, timeout_ms: u64) -> (r: Result<
        (RunSession, Action),
        ExecError,
    >)
        ensures
            r is Err <==> !recognized(req.language@),
            r matches Err(e) ==> e is UnsupportedLanguage,
            r matches Ok(sa) ==> ({
                let s = sa.0;
                let a = sa.1;
                &&& s.inv()
                &&& spec_language_of(req.language@) == Some(s.language)
                &&& s.source@ == req.source@
                &&& s.run_id@ == run_id@
                &&& s.timeout_ms == timeout_ms
                &&& s.outcome is None
                &&& s.cleanup_failures@.len() == 0
                &&& (if s.language.spec_is_compiled() {
                    &&& s.phase is WritingSource
                    &&& write_source_action(a, run_id@, req.source@)
                } else {
                    &&& s.phase is RunningInterpreter
                    &&& interpreter_spawn(a, req.source@, timeout_ms)
                })
            }),
    {
        let language = match Language::from_tag(req.language.as_str()) {
            Some(l) => l,
            None => {
                return Err(ExecError::UnsupportedLanguage);
            },
        };
        let src_path = temp_source_path(run_id.as_str());
        let bin_path = temp_binary_path(run_id.as_str());
        if language.is_compiled() {
            let contents = req.source.clone();
            let path = src_path.clone();
            let session = RunSession {
                language,
                source: req.source,
                run_id,
                timeout_ms,
                phase: Phase::WritingSource,
                src_path,
                bin_path,
                pending_files: Vec::new(),
                removing: None,
                outcome: None,
                cleanup_failures: Vec::new(),
            };
            Ok((session, Action::WriteFile { path, contents }))
        } else {
            let mut args: Vec<String> = Vec::new();
            args.push(String::from_str("-c"));
            args.push(req.source.clone());
            let action = Action::Spawn { program: language.tool_program(), args, timeout_ms };
            let session = RunSession {
                language,
                source: req.source,
                run_id,
                timeout_ms,
                phase: Phase::RunningInterpreter,
                src_path,
                bin_path,
                pending_files: Vec::new(),
                removing: None,
                outcome: None,
                cleanup_failures: Vec::new(),
            };
            Ok((session, action))
        }
    }

    /// Advances the invocation by one step: the host reports what happened,
    /// the session decides the next action.
    pub fn on_event(&mut self, event: Event) -> (a: Action)
        requires
            old(self).inv(),
            event_fits(old(self).phase, event),
        ensures
            final(self).inv(),
            step_spec(*old(self), event, *final(self), a),
    {
        match self.phase {
            Phase::RunningInterpreter => match event {
                Event::Completed { exit_zero, stdout, stderr, duration_ms } => {
                    self.outcome = Some(Self::decode_completed(exit_zero, stdout, stderr,
                        duration_ms));
                    self.phase = Phase::Finished;
                    Action::Finish
                },
                Event::SpawnFailed { message } => {
                    self.outcome = Some(Err(ExecError::SpawnFailure { message }));
                    self.phase = Phase::Finished;
                    Action::Finish
                },
                Event::TimedOut => {
                    self.outcome = Some(Err(ExecError::Timeout));
                    self.phase = Phase::Finished;
                    Action::Finish
                },
                _ => unreached(),
            },
            Phase::WritingSource => match event {
                Event::Wrote => {
                    self.pending_files.push(self.src_path.clone());
                    self.phase = Phase::Compiling;
                    let mut args: Vec<String> = Vec::new();
                    args.push(self.src_path.clone());
                    args.push(String::from_str("-o"));
                    args.push(self.bin_path.clone());
                    Action::Spawn {
                        program: String::from_str("rustc"),
                        args,
                        timeout_ms: self.timeout_ms,
                    }
                },
                Event::WriteFailed { message } => {
                    self.outcome = Some(Err(ExecError::WriteFailure { message }));
                    self.phase = Phase::Finished;
                    Action::Finish
                },
                _ => unreached(),
            },
            Phase::Compiling => match event {
                Event::Completed { exit_zero, stdout: _, stderr, duration_ms: _ } => {
                    if exit_zero {
                        self.pending_files.push(self.bin_path.clone());
                        self.phase = Phase::RunningBinary;
                        Action::Spawn {
                            program: self.bin_path.clone(),
                            args: Vec::new(),
                            timeout_ms: self.timeout_ms,
                        }
                    } else {
                        let oc = match decode_stream(stderr) {
                            Some(diagnostics) => Err(ExecError::CompileFailure { diagnostics }),
                            None => Err(ExecError::DecodeFailure),
                        };
                        self.outcome = Some(oc);
                        self.begin_cleanup()
                    }
                },
                Event::SpawnFailed { message } => {
                    self.outcome = Some(Err(ExecError::SpawnFailure { message }));
                    self.begin_cleanup()
                },
                Event::TimedOut => {
                    self.outcome = Some(Err(ExecError::Timeout));
                    self.begin_cleanup()
                },
                _ => unreached(),
            },
            Phase::RunningBinary => match event {
                Event::Completed { exit_zero, stdout, stderr, duration_ms } => {
                    self.outcome = Some(Self::decode_completed(exit_zero, stdout, stderr,
                        duration_ms));
                    self.begin_cleanup()
                },
                Event::SpawnFailed { message } => {
                    self.outcome = Some(Err(ExecError::SpawnFailure { message }));
                    self.begin_cleanup()
                },
                Event::TimedOut => {
                    self.outcome = Some(Err(ExecError::Timeout));
                    self.begin_cleanup()
                },
                _ => unreached(),
            },
            Phase::Removing => match event {
                Event::Removed { ok } => {
                    let prev = self.removing.take();
                    if !ok {
                        match prev {
                            Some(p) => self.cleanup_failures.push(p),
                            None => unreached(),
                        }
                    }
                    self.begin_cleanup()
                },
                _ => unreached(),
            },
            Phase::Finished => unreached(),
        }
    }

    /// The invocation's outcome, once it has finished.
    pub fn into_outcome(self) -> (r: Result<ExecutionResult, ExecError>)
        requires
            self.inv(),
            self.phase is Finished,
        ensures
            Some(r) == self.outcome,
    {
        match self.outcome {
            Some(r) => r,
            None => unreached(),
        }
    }

    /// What a failed removal leaves behind: an observed tag, never an
    /// escalated error.
    pub fn cleanup_observation(&self) -> (k: Option<ErrorKind>)
        ensures
            k is Some <==> self.cleanup_failures@.len() > 0,
            k matches Some(kk) ==> kk is CleanupFailure,
    {
        if self.cleanup_failures.len() > 0 {
            Some(ErrorKind::CleanupFailure)
        } else {
            None
        }
    }

    /// Decodes the two captured streams of a completed program: the result
    /// on valid text, the decode failure otherwise.
    fn decode_completed(exit_zero: bool, stdout: Vec<u8>, stderr: Vec<u8>, duration_ms: u64) -> (r:
        Result<ExecutionResult, ExecError>)
        ensures
            completed_outcome(Some(r), exit_zero, stdout@, stderr@, duration_ms),
    {
        let out_text = decode_stream(stdout);
        let err_text = decode_stream(stderr);
        match (out_text, err_text) {
            (Some(out), Some(err)) => Ok(
                ExecutionResult { stdout: out, stderr: err, duration_ms, success: exit_zero },
            ),
            _ => Err(ExecError::DecodeFailure),
        }
    }

    /// Asks the host to remove the most recently created pending file, or
    /// finishes once none is left.
    fn begin_cleanup(&mut self) -> (a: Action)
        requires
            old(self).removing is None,
        ensures
            final(self).language == old(self).language,
            final(self).source == old(self).source,
            final(self).run_id == old(self).run_id,
            final(self).timeout_ms == old(self).timeout_ms,
            final(self).src_path == old(self).src_path,
            final(self).bin_path == old(self).bin_path,
            final(self).outcome == old(self).outcome,
            final(self).cleanup_failures == old(self).cleanup_failures,
            old(self).pending_files@.len() > 0 ==> ({
                &&& final(self).phase is Removing
                &&& final(self).pending_files@ == old(self).pending_files@.drop_last()
                &&& final(self).removing == Some(old(self).pending_files@.last())
                &&& a matches Action::RemoveFile { path } && path@ == old(
                    self,
                ).pending_files@.last()@
            }),
            old(self).pending_files@.len() == 0 ==> ({
                &&& final(self).phase is Finished
                &&& final(self).pending_files@ == old(self).pending_files@
                &&& final(self).removing is None
                &&& a is Finish
            }),
    {
        match self.pending_files.pop() {
            Some(next) => {
                let path = next.clone();
                self.removing = Some(next);
                self.phase = Phase::Removing;
                Action::RemoveFile { path }
            },
            None => {
                self.phase = Phase::Finished;
                Action::Finish
            },
        }
    }
}

/// A program that ran to completion yields exactly what the process did:
/// the success flag mirrors the exit status and both captured streams are
/// carried over, decoded — and when a stream is not valid text, the
/// invocation yields the decode failure instead. This holds for both
/// execution stages, so for every recognized language. In particular, a
/// run that exited non-zero yields `success == false` with its standard
/// error kept, non-empty whenever the process wrote anything to it.
pub proof fn lemma_result_mirrors_process(pre: RunSession, e: Event, post: RunSession, a: Action)
    requires
        pre.inv(),
        pre.phase is RunningInterpreter || pre.phase is RunningBinary,
        e is Completed,
        step_spec(pre, e, post, a),
    ensures
        e matches Event::Completed { exit_zero, stdout, stderr, duration_ms } ==> ({
            &&& (valid_utf8(stdout@) && valid_utf8(stderr@)) ==> (post.outcome matches Some(
                Ok(res),
            ) && res.success == exit_zero && res.stdout@ == decode_utf8(stdout@) && res.stderr@
                == decode_utf8(stderr@) && res.duration_ms == duration_ms)
            &&& (valid_utf8(stdout@) && valid_utf8(stderr@) && stderr@.len() > 0) ==> (
            post.outcome matches Some(Ok(res)) && res.stderr@.len() > 0)
            &&& !(valid_utf8(stdout@) && valid_utf8(stderr@)) ==> post.outcome matches Some(
                Err(ExecError::DecodeFailure),
            )
        }),
{
    if let Event::Completed { stdout, stderr, .. } = e {
        if valid_utf8(stdout@) && valid_utf8(stderr@) && stderr@.len() > 0 {
            crate::encoding::lemma_decode_nonempty(stderr@);
        }
    }
}

/// Once an invocation's outcome is decided, later steps change nothing but
/// the cleanup bookkeeping: the outcome stays what it was, and no process
/// is spawned and no file written any more.
pub proof fn lemma_decided_outcome_is_final(pre: RunSession, e: Event, post: RunSession, a: Action)
    requires
        pre.inv(),
        pre.outcome is Some,
        event_fits(pre.phase, e),
        step_spec(pre, e, post, a),
    ensures
        post.outcome == pre.outcome,
        !(a is Spawn),
        !(a is WriteFile),
{
}

/// A source that fails to compile yields `CompileFailure` carrying the
/// compiler's decoded diagnostics (or `DecodeFailure` when they are not
/// text), and the binary is never executed: this step's action removes the
/// temporary source file, and by `lemma_decided_outcome_is_final` no later
/// step spawns anything.
pub proof fn lemma_compile_failure_never_runs_binary(
    pre: RunSession,
    e: Event,
    post: RunSession,
    a: Action,
)
    requires
        pre.inv(),
        pre.phase is Compiling,
        e matches Event::Completed { exit_zero: false, .. },
        step_spec(pre, e, post, a),
    ensures
        post.outcome matches Some(Err(err)) && (err is CompileFailure || err is DecodeFailure),
        e matches Event::Completed { stderr, .. } ==> ({
            valid_utf8(stderr@) ==> (post.outcome matches Some(
                Err(ExecError::CompileFailure { diagnostics }),
            ) && diagnostics@ == decode_utf8(stderr@))
        }),
        a matches Action::RemoveFile { path } && path@ == pre.src_path@,
{
}

/// A process that outlives its allowed duration decides the outcome as
/// `Timeout`, whichever stage was running.
pub proof fn lemma_timeout_is_reported(pre: RunSession, e: Event, post: RunSession, a: Action)
    requires
        pre.inv(),
        e is TimedOut,
        event_fits(pre.phase, e),
        step_spec(pre, e, post, a),
    ensures
        post.outcome matches Some(Err(ExecError::Timeout)),
{
}

/// How many steps an invocation can still take before it is finished.
pub open spec fn steps_left(s: RunSession) -> int {
    match s.phase {
        Phase::RunningInterpreter => 1,
        Phase::WritingSource => 5,
        Phase::Compiling => 4,
        Phase::RunningBinary => 3,
        Phase::Removing => 1 + s.pending_files@.len() as int,
        Phase::Finished => 0,
    }
}

/// Every step brings the invocation strictly closer to `Finished`: whatever
/// the host reports, a session is never left running indefinitely.
pub proof fn lemma_steps_terminate(pre: RunSession, e: Event, post: RunSession, a: Action)
    requires
        pre.inv(),
        event_fits(pre.phase, e),
        step_spec(pre, e, post, a),
    ensures
        0 <= steps_left(post) < steps_left(pre),
{
}

/// Two invocations never touch each other's temporary files: when their
/// identifiers differ, their four file names are pairwise distinct.
pub proof fn lemma_concurrent_sessions_use_disjoint_files(s1: RunSession, s2: RunSession)
    requires
        s1.inv(),
        s2.inv(),
        s1.run_id@ != s2.run_id@,
    ensures
        s1.src_path@ != s2.src_path@,
        s1.bin_path@ != s2.bin_path@,
        s1.src_path@ != s2.bin_path@,
        s1.bin_path@ != s2.src_path@,
{
    crate::paths::lemma_paths_disjoint(s1.run_id@, s2.run_id@);
}

/// A session only ever asks the host to remove one of its own two files,
/// and never asks it to write one after the initial action: with
/// `lemma_concurrent_sessions_use_disjoint_files`, one invocation's cleanup
/// cannot touch another invocation's files.
pub proof fn lemma_session_removes_only_its_files(
    pre: RunSession,
    e: Event,
    post: RunSession,
    a: Action,
)
    requires
        pre.inv(),
        event_fits(pre.phase, e),
        step_spec(pre, e, post, a),
    ensures
        a matches Action::RemoveFile { path } ==> (path@ == pre.src_path@ || path@
            == pre.bin_path@),
        !(a is WriteFile),
{
}

/// When an invocation has finished — with success, a compile failure, or
/// any other outcome — no temporary file it created is still awaiting a
/// removal request: the session asked the host to remove every one of
/// them.
pub proof fn lemma_finished_leaves_no_files(s: RunSession)
    requires
        s.inv(),
        s.phase is Finished,
    ensures
        s.pending_files@.len() == 0,
        s.removing is None,
        s.outcome is Some,
{
}

} // verus!

