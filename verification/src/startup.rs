//! Starting a vessel: what is done in which order, and what a failure amounts to.
use crate::context::{ContextView, VesselContext};
use crate::operation::Operation;
use crate::poll::{FutureView, WebFuture};
use vstd::prelude::*;

verus! {

/// What a vessel finds among its imports.
#[derive(Clone, Copy, Debug, PartialEq, Eq, Structural)]
pub enum Import {
    /// An object without properties.
    Module,
    /// The object that holds the functions below.
    Env,
    /// Notifies the task that drives the vessel.
    Wake,
    /// Asks for bytes.
    PollRead,
    /// Asks to have bytes written.
    PollWrite,
    /// Asks to have the writer flushed.
    PollFlush,
    /// Asks to have the writer closed.
    PollClose,
}

impl Import {
    /// Whether the import is a property of the object [`Import::Env`]; else it is one of the
    /// object that the vessel is instantiated with.
    pub open spec fn spec_in_env(self) -> bool {
        self != Import::Module && self != Import::Env
    }

    /// Whether the import is a property of the object [`Import::Env`]; else it is one of the
    /// object that the vessel is instantiated with.
    pub fn in_env(self) -> (in_env: bool)
        ensures
            in_env == self.spec_in_env(),
    {
        match self {
            Import::Module | Import::Env => false,
            _ => true,
        }
    }

    /// The property under which a vessel finds the import.
    pub open spec fn spec_name(self) -> Seq<char> {
        match self {
            Import::Module => "module"@,
            Import::Env => "env"@,
            Import::Wake => "_vessel_wake"@,
            Import::PollRead => "_vessel_poll_read"@,
            Import::PollWrite => "_vessel_poll_write"@,
            Import::PollFlush => "_vessel_poll_flush"@,
            Import::PollClose => "_vessel_poll_close"@,
        }
    }

    /// The property under which a vessel finds the import.
    pub fn name(self) -> (name: &'static str)
        ensures
            name@ == self.spec_name(),
    {
        match self {
            Import::Module => "module",
            Import::Env => "env",
            Import::Wake => "_vessel_wake",
            Import::PollRead => "_vessel_poll_read",
            Import::PollWrite => "_vessel_poll_write",
            Import::PollFlush => "_vessel_poll_flush",
            Import::PollClose => "_vessel_poll_close",
        }
    }
}

/// What a vessel has to give to its host.
#[derive(Clone, Copy, Debug, PartialEq, Eq, Structural)]
pub enum Export {
    /// The memory in which bytes are handed over.
    Memory,
    /// The function that starts the vessel.
    Entry,
    /// The function that makes the vessel go on.
    Poll,
    /// The function that learns that an operation can go on.
    Wake(Operation),
}

impl Export {
    /// The property under which the host finds the export.
    pub open spec fn spec_name(self) -> Seq<char> {
        match self {
            Export::Memory => "memory"@,
            Export::Entry => "_vessel_entry"@,
            Export::Poll => "_vessel_poll"@,
            Export::Wake(Operation::Read) => "_vessel_wake_reader"@,
            Export::Wake(Operation::Write) => "_vessel_wake_writer_write"@,
            Export::Wake(Operation::Flush) => "_vessel_wake_writer_flush"@,
            Export::Wake(Operation::Close) => "_vessel_wake_writer_close"@,
        }
    }

    /// The property under which the host finds the export.
    pub fn name(self) -> (name: &'static str)
        ensures
            name@ == self.spec_name(),
    {
        match self {
            Export::Memory => "memory",
            Export::Entry => "_vessel_entry",
            Export::Poll => "_vessel_poll",
            Export::Wake(Operation::Read) => "_vessel_wake_reader",
            Export::Wake(Operation::Write) => "_vessel_wake_writer_write",
            Export::Wake(Operation::Flush) => "_vessel_wake_writer_flush",
            Export::Wake(Operation::Close) => "_vessel_wake_writer_close",
        }
    }
}

/// The property under which the host finds the instance in what came of instantiating a vessel.
pub const INSTANCE: &'static str = "instance";

/// One thing that is done to start a vessel.
#[derive(Clone, Copy, Debug, PartialEq, Eq, Structural)]
pub enum Action {
    /// Acquire the resource manager.
    Acquire,
    /// Fetch the vessel's binary from the resource manager.
    Fetch,
    /// Put an import in its place.
    Define(Import),
    /// Compile the binary and instantiate it with the imports.
    Instantiate,
    /// Get the instance, [`INSTANCE`], out of what came of that.
    GetInstance,
    /// Get an export out of the instance.
    Get(Export),
    /// Call the function that starts the vessel.
    Enter,
    /// The vessel runs: poll it until it ends.
    Run,
}

/// All that is done to start a vessel, in order.
pub open spec fn plan() -> Seq<Action> {
    seq![
        Action::Acquire,
        Action::Fetch,
        Action::Define(Import::Module),
        Action::Define(Import::Env),
        Action::Define(Import::Wake),
        Action::Define(Import::PollRead),
        Action::Define(Import::PollWrite),
        Action::Define(Import::PollFlush),
        Action::Define(Import::PollClose),
        Action::Instantiate,
        Action::GetInstance,
        Action::Get(Export::Memory),
        Action::Get(Export::Entry),
        Action::Get(Export::Poll),
        Action::Get(Export::Wake(Operation::Read)),
        Action::Get(Export::Wake(Operation::Write)),
        Action::Get(Export::Wake(Operation::Flush)),
        Action::Get(Export::Wake(Operation::Close)),
        Action::Enter,
        Action::Run,
    ]
}

/// Why a vessel was not started. `J` is what the web page throws, `A` the error of acquiring the
/// resource manager and `B` that of fetching the binary.
pub enum StartupError<J, A, B> {
    Acquire(A),
    NoResourceManager,
    Fetch(B),
    NoBinary,
    Runtime(J),
}

/// What came of an action. The parameters are those of [`Startup`] and of [`StartupError`].
pub enum Outcome<N, D, S, I, G, J, A, B> {
    Acquired(Result<Option<N>, A>),
    Fetched(Result<Option<D>, B>),
    Instantiated(Result<S, J>),
    GotInstance(Result<I, J>),
    GotFunction(Result<G, J>),
    Done(Result<(), J>),
}

impl<N, D, S, I, G, J, A, B> Outcome<N, D, S, I, G, J, A, B> {
    /// Whether this can come of `action`. Nothing comes of [`Action::Run`].
    pub open spec fn answers(self, action: Action) -> bool {
        match action {
            Action::Acquire => self is Acquired,
            Action::Fetch => self is Fetched,
            Action::Define(_) => self is Done,
            Action::Instantiate => self is Instantiated,
            Action::GetInstance => self is GotInstance,
            Action::Get(export) => if export == Export::Memory {
                self is Done
            } else {
                self is GotFunction
            },
            Action::Enter => self is Done,
            Action::Run => false,
        }
    }

    /// The error that this ends the start with, if any.
    pub open spec fn error(self) -> Option<StartupError<J, A, B>> {
        match self {
            Outcome::Acquired(Err(error)) => Some(StartupError::Acquire(error)),
            Outcome::Acquired(Ok(None)) => Some(StartupError::NoResourceManager),
            Outcome::Fetched(Err(error)) => Some(StartupError::Fetch(error)),
            Outcome::Fetched(Ok(None)) => Some(StartupError::NoBinary),
            Outcome::Instantiated(Err(thrown)) => Some(StartupError::Runtime(thrown)),
            Outcome::GotInstance(Err(thrown)) => Some(StartupError::Runtime(thrown)),
            Outcome::GotFunction(Err(thrown)) => Some(StartupError::Runtime(thrown)),
            Outcome::Done(Err(thrown)) => Some(StartupError::Runtime(thrown)),
            _ => None,
        }
    }
}

/// Where in the plan an export is got.
pub open spec fn place(export: Export) -> int {
    match export {
        Export::Memory => 11,
        Export::Entry => 12,
        Export::Poll => 13,
        Export::Wake(operation) => 14 + operation.rank(),
    }
}

/// What can be said of a [`Startup`].
pub struct StartupView<N, D, S, I, G> {
    /// How many actions are done.
    pub position: int,
    /// The resource manager.
    pub manager: Option<N>,
    /// The vessel's binary.
    pub binary: Option<D>,
    /// What came of instantiating the binary.
    pub source: Option<S>,
    /// The vessel's instance.
    pub instance: Option<I>,
    /// The functions that were got out of the instance.
    pub functions: Map<Export, G>,
}

impl<N, D, S, I, G> StartupView<N, D, S, I, G> {
    /// Nothing done yet.
    pub open spec fn fresh() -> StartupView<N, D, S, I, G> {
        StartupView {
            position: 0,
            manager: None,
            binary: None,
            source: None,
            instance: None,
            functions: Map::empty(),
        }
    }

    /// What to do next.
    pub open spec fn action(self) -> Action {
        plan()[self.position]
    }

    /// There is something to do next, and what the actions before it were to give is there.
    pub open spec fn wf(self) -> bool {
        &&& 0 <= self.position < plan().len()
        &&& self.manager is Some <==> self.position > 0
        &&& self.binary is Some <==> self.position > 1
        &&& self.source is Some <==> self.position > 9
        &&& self.instance is Some <==> self.position > 10
        &&& forall|export: Export| #[trigger]
            self.functions.contains_key(export) <==> export != Export::Memory && place(export)
                < self.position
    }

    /// One action further, with what the action gave, if it succeeded.
    pub open spec fn with<J, A, B>(
        self,
        outcome: Outcome<N, D, S, I, G, J, A, B>,
    ) -> StartupView<N, D, S, I, G> {
        let next = StartupView { position: self.position + 1, ..self };
        match outcome {
            Outcome::Acquired(Ok(manager)) => StartupView { manager, ..next },
            Outcome::Fetched(Ok(binary)) => StartupView { binary, ..next },
            Outcome::Instantiated(Ok(source)) => StartupView { source: Some(source), ..next },
            Outcome::GotInstance(Ok(instance)) => StartupView { instance: Some(instance), ..next },
            Outcome::GotFunction(Ok(function)) => StartupView {
                functions: self.functions.insert(self.action()->Get_0, function),
                ..next
            },
            _ => next,
        }
    }

    /// How the start goes on after the next action: on with what that gave, or to its end.
    pub open spec fn after<J, A, B>(
        self,
        outcome: Outcome<N, D, S, I, G, J, A, B>,
    ) -> Result<StartupView<N, D, S, I, G>, StartupError<J, A, B>> {
        match outcome.error() {
            Some(error) => Err(error),
            None => Ok(self.with(outcome)),
        }
    }

    /// How the start goes on after several actions.
    pub open spec fn after_all<J, A, B>(
        self,
        outcomes: Seq<Outcome<N, D, S, I, G, J, A, B>>,
    ) -> Result<StartupView<N, D, S, I, G>, StartupError<J, A, B>>
        decreases outcomes.len(),
    {
        if outcomes.len() == 0 {
            Ok(self)
        } else {
            match self.after_all(outcomes.drop_last()) {
                Err(error) => Err(error),
                Ok(startup) => startup.after(outcomes.last()),
            }
        }
    }
}

/// A vessel that is being started. `N` is the resource manager, `D` the vessel's binary, `S` what
/// comes of instantiating it, `I` the instance and `G` a function of the vessel.
pub struct Startup<N, D, S, I, G> {
    position: u8,
    manager: Option<N>,
    binary: Option<D>,
    source: Option<S>,
    instance: Option<I>,
    entrypoint: Option<G>,
    vessel_poll: Option<G>,
    vessel_wake_reader: Option<G>,
    vessel_wake_writer_write: Option<G>,
    vessel_wake_writer_flush: Option<G>,
    vessel_wake_writer_close: Option<G>,
}

impl<N, D, S, I, G> View for Startup<N, D, S, I, G> {
    type V = StartupView<N, D, S, I, G>;

    closed spec fn view(&self) -> StartupView<N, D, S, I, G> {
        StartupView {
            position: self.position as int,
            manager: self.manager,
            binary: self.binary,
            source: self.source,
            instance: self.instance,
            functions: Map::new(
                |export: Export| self.slot(export) is Some,
                |export: Export| self.slot(export)->0,
            ),
        }
    }
}

impl<N, D, S, I, G> Startup<N, D, S, I, G> {
    /// Where a function is kept.
    closed spec fn slot(&self, export: Export) -> Option<G> {
        match export {
            Export::Memory => None,
            Export::Entry => self.entrypoint,
            Export::Poll => self.vessel_poll,
            Export::Wake(Operation::Read) => self.vessel_wake_reader,
            Export::Wake(Operation::Write) => self.vessel_wake_writer_write,
            Export::Wake(Operation::Flush) => self.vessel_wake_writer_flush,
            Export::Wake(Operation::Close) => self.vessel_wake_writer_close,
        }
    }

    /// Nothing done yet.
    pub fn new() -> (startup: Startup<N, D, S, I, G>)
        ensures
            startup@ == StartupView::<N, D, S, I, G>::fresh(),
            startup@.wf(),
    {
        let startup = Startup {
            position: 0,
            manager: None,
            binary: None,
            source: None,
            instance: None,
            entrypoint: None,
            vessel_poll: None,
            vessel_wake_reader: None,
            vessel_wake_writer_write: None,
            vessel_wake_writer_flush: None,
            vessel_wake_writer_close: None,
        };
        assert(startup@.functions =~= Map::empty());
        startup
    }

    /// What to do next.
    pub fn action(&self) -> (action: Action)
        requires
            self@.wf(),
        ensures
            action == self@.action(),
    {
        match self.position {
            0 => Action::Acquire,
            1 => Action::Fetch,
            2 => Action::Define(Import::Module),
            3 => Action::Define(Import::Env),
            4 => Action::Define(Import::Wake),
            5 => Action::Define(Import::PollRead),
            6 => Action::Define(Import::PollWrite),
            7 => Action::Define(Import::PollFlush),
            8 => Action::Define(Import::PollClose),
            9 => Action::Instantiate,
            10 => Action::GetInstance,
            11 => Action::Get(Export::Memory),
            12 => Action::Get(Export::Entry),
            13 => Action::Get(Export::Poll),
            14 => Action::Get(Export::Wake(Operation::Read)),
            15 => Action::Get(Export::Wake(Operation::Write)),
            16 => Action::Get(Export::Wake(Operation::Flush)),
            17 => Action::Get(Export::Wake(Operation::Close)),
            18 => Action::Enter,
            _ => Action::Run,
        }
    }

    /// The resource manager to fetch the binary from.
    pub fn manager(&self) -> (manager: Option<&N>)
        ensures
            match manager {
                Some(acquired) => self@.manager == Some(*acquired),
                None => self@.manager is None,
            },
    {
        self.manager.as_ref()
    }

    /// The binary to instantiate.
    pub fn binary(&self) -> (binary: Option<&D>)
        ensures
            match binary {
                Some(fetched) => self@.binary == Some(*fetched),
                None => self@.binary is None,
            },
    {
        self.binary.as_ref()
    }

    /// What to get the instance out of.
    pub fn source(&self) -> (source: Option<&S>)
        ensures
            match source {
                Some(given) => self@.source == Some(*given),
                None => self@.source is None,
            },
    {
        self.source.as_ref()
    }

    /// What to get the exports out of.
    pub fn instance(&self) -> (instance: Option<&I>)
        ensures
            match instance {
                Some(given) => self@.instance == Some(*given),
                None => self@.instance is None,
            },
    {
        self.instance.as_ref()
    }

    /// The function to enter the vessel by.
    pub fn entrypoint(&self) -> (entrypoint: Option<&G>)
        ensures
            match entrypoint {
                Some(function) => self@.functions.contains_key(Export::Entry)
                    && self@.functions[Export::Entry] == *function,
                None => !self@.functions.contains_key(Export::Entry),
            },
    {
        self.entrypoint.as_ref()
    }

    /// Goes on after [`Action::Acquire`].
    pub fn acquired<J, A, B>(self, outcome: Result<Option<N>, A>) -> (result: Result<
        Startup<N, D, S, I, G>,
        StartupError<J, A, B>,
    >)
        requires
            self@.wf(),
            self@.action() == Action::Acquire,
        ensures
            match self@.after(Outcome::<N, D, S, I, G, J, A, B>::Acquired(outcome)) {
                Err(error) => result == Err::<Startup<N, D, S, I, G>, _>(error),
                Ok(next) => {
                    &&& result matches Ok(startup)
                    &&& startup@ == next
                    &&& next.wf()
                },
            },
    {
        match outcome {
            Err(error) => Err(StartupError::Acquire(error)),
            Ok(None) => Err(StartupError::NoResourceManager),
            Ok(Some(manager)) => {
                let startup = Startup { position: 1, manager: Some(manager), ..self };
                assert(startup@.functions =~= self@.functions);
                Ok(startup)
            },
        }
    }

    /// Goes on after [`Action::Fetch`].
    pub fn fetched<J, A, B>(self, outcome: Result<Option<D>, B>) -> (result: Result<
        Startup<N, D, S, I, G>,
        StartupError<J, A, B>,
    >)
        requires
            self@.wf(),
            self@.action() == Action::Fetch,
        ensures
            match self@.after(Outcome::<N, D, S, I, G, J, A, B>::Fetched(outcome)) {
                Err(error) => result == Err::<Startup<N, D, S, I, G>, _>(error),
                Ok(next) => {
                    &&& result matches Ok(startup)
                    &&& startup@ == next
                    &&& next.wf()
                },
            },
    {
        match outcome {
            Err(error) => Err(StartupError::Fetch(error)),
            Ok(None) => Err(StartupError::NoBinary),
            Ok(Some(binary)) => {
                let startup = Startup { position: 2, binary: Some(binary), ..self };
                assert(startup@.functions =~= self@.functions);
                Ok(startup)
            },
        }
    }

    /// Goes on after [`Action::Instantiate`].
    pub fn instantiated<J, A, B>(self, outcome: Result<S, J>) -> (result: Result<
        Startup<N, D, S, I, G>,
        StartupError<J, A, B>,
    >)
        requires
            self@.wf(),
            self@.action() == Action::Instantiate,
        ensures
            match self@.after(Outcome::<N, D, S, I, G, J, A, B>::Instantiated(outcome)) {
                Err(error) => result == Err::<Startup<N, D, S, I, G>, _>(error),
                Ok(next) => {
                    &&& result matches Ok(startup)
                    &&& startup@ == next
                    &&& next.wf()
                },
            },
    {
        match outcome {
            Err(thrown) => Err(StartupError::Runtime(thrown)),
            Ok(source) => {
                let startup = Startup { position: 10, source: Some(source), ..self };
                assert(startup@.functions =~= self@.functions);
                Ok(startup)
            },
        }
    }

    /// Goes on after [`Action::GetInstance`].
    pub fn got_instance<J, A, B>(self, outcome: Result<I, J>) -> (result: Result<
        Startup<N, D, S, I, G>,
        StartupError<J, A, B>,
    >)
        requires
            self@.wf(),
            self@.action() == Action::GetInstance,
        ensures
            match self@.after(Outcome::<N, D, S, I, G, J, A, B>::GotInstance(outcome)) {
                Err(error) => result == Err::<Startup<N, D, S, I, G>, _>(error),
                Ok(next) => {
                    &&& result matches Ok(startup)
                    &&& startup@ == next
                    &&& next.wf()
                },
            },
    {
        match outcome {
            Err(thrown) => Err(StartupError::Runtime(thrown)),
            Ok(instance) => {
                let startup = Startup { position: 11, instance: Some(instance), ..self };
                assert(startup@.functions =~= self@.functions);
                Ok(startup)
            },
        }
    }

    /// Goes on after [`Action::Get`] of a function.
    pub fn got_function<J, A, B>(self, outcome: Result<G, J>) -> (result: Result<
        Startup<N, D, S, I, G>,
        StartupError<J, A, B>,
    >)
        requires
            self@.wf(),
            self@.action() is Get,
            self@.action() != Action::Get(Export::Memory),
        ensures
            match self@.after(Outcome::<N, D, S, I, G, J, A, B>::GotFunction(outcome)) {
                Err(error) => result == Err::<Startup<N, D, S, I, G>, _>(error),
                Ok(next) => {
                    &&& result matches Ok(startup)
                    &&& startup@ == next
                    &&& next.wf()
                },
            },
    {
        match outcome {
            Err(thrown) => Err(StartupError::Runtime(thrown)),
            Ok(function) => {
                let ghost export = self@.action()->Get_0;
                let position: u8 = self.position + 1;
                let startup = match self.position {
                    12 => Startup { position, entrypoint: Some(function), ..self },
                    13 => Startup { position, vessel_poll: Some(function), ..self },
                    14 => Startup { position, vessel_wake_reader: Some(function), ..self },
                    15 => Startup { position, vessel_wake_writer_write: Some(function), ..self },
                    16 => Startup { position, vessel_wake_writer_flush: Some(function), ..self },
                    _ => Startup { position, vessel_wake_writer_close: Some(function), ..self },
                };
                assert(startup@.functions =~= self@.functions.insert(export, outcome->Ok_0));
                Ok(startup)
            },
        }
    }

    /// Goes on after [`Action::Get`] of the memory, which is made known to the functions that the
    /// vessel calls.
    pub fn got_memory<M, R, W, F, C, J, A, B>(
        self,
        context: &mut VesselContext<M, R, W, F, C>,
        outcome: Result<M, J>,
    ) -> (result: Result<Startup<N, D, S, I, G>, StartupError<J, A, B>>)
        requires
            self@.wf(),
            self@.action() == Action::Get(Export::Memory),
            old(context).wf(),
        ensures
            final(context).wf(),
            match outcome {
                Err(thrown) => {
                    &&& result == Err::<Startup<N, D, S, I, G>, _>(
                        StartupError::<J, A, B>::Runtime(thrown),
                    )
                    &&& final(context)@ == old(context)@
                },
                Ok(memory) => {
                    &&& result matches Ok(startup)
                    &&& startup@ == self@.with(Outcome::<N, D, S, I, G, J, A, B>::Done(Ok(())))
                    &&& startup@.wf()
                    &&& final(context)@ == (ContextView { memory: Some(memory), ..old(context)@ })
                },
            },
    {
        match outcome {
            Err(thrown) => Err(StartupError::Runtime(thrown)),
            Ok(memory) => {
                context.attach(memory);
                let startup = Startup { position: 12, ..self };
                assert(startup@.functions =~= self@.functions);
                Ok(startup)
            },
        }
    }

    /// Goes on after [`Action::Define`] and after [`Action::Enter`].
    pub fn done<J, A, B>(self, outcome: Result<(), J>) -> (result: Result<
        Startup<N, D, S, I, G>,
        StartupError<J, A, B>,
    >)
        requires
            self@.wf(),
            self@.action() is Define || self@.action() == Action::Enter,
        ensures
            match self@.after(Outcome::<N, D, S, I, G, J, A, B>::Done(outcome)) {
                Err(error) => result == Err::<Startup<N, D, S, I, G>, _>(error),
                Ok(next) => {
                    &&& result matches Ok(startup)
                    &&& startup@ == next
                    &&& next.wf()
                },
            },
    {
        match outcome {
            Err(thrown) => Err(StartupError::Runtime(thrown)),
            Ok(_) => {
                let position: u8 = self.position + 1;
                let startup = Startup { position, ..self };
                assert(startup@.functions =~= self@.functions);
                Ok(startup)
            },
        }
    }

    /// The vessel that was started, at [`Action::Run`].
    pub fn run(self) -> (future: WebFuture<I, G>)
        requires
            self@.wf(),
            self@.action() == Action::Run,
        ensures
            future@ == (FutureView {
                instance: self@.instance->0,
                functions: self@.functions.remove(Export::Entry),
            }),
            future@.wf(),
    {
        proof {
            assert(self@.functions.contains_key(Export::Poll));
            assert(self@.functions.contains_key(Export::Wake(Operation::Read)));
            assert(self@.functions.contains_key(Export::Wake(Operation::Write)));
            assert(self@.functions.contains_key(Export::Wake(Operation::Flush)));
            assert(self@.functions.contains_key(Export::Wake(Operation::Close)));
        }
        let future = WebFuture::new(
            self.instance.unwrap(),
            self.vessel_poll.unwrap(),
            self.vessel_wake_reader.unwrap(),
            self.vessel_wake_writer_write.unwrap(),
            self.vessel_wake_writer_flush.unwrap(),
            self.vessel_wake_writer_close.unwrap(),
        );
        assert(future@.functions =~= self@.functions.remove(Export::Entry));
        future
    }
}

} // verus!
