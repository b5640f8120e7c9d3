use vstd::prelude::*;

verus! {

/// The byte `/`, the separator that starts an absolute path.
pub const PATH_SEPARATOR: u8 = 0x2f;

/// A path is absolute when it starts at the root, that is, with the separator.
pub open spec fn is_absolute_path(path: Seq<u8>) -> bool {
    path.len() > 0 && path[0] == PATH_SEPARATOR
}

/// An existing command and its exact argument vector.
///
/// The program path and each argument are held as the raw bytes of the operating
/// system's strings. Execution inherits the caller's environment, current directory and
/// standard streams; arguments are handed to the process without shell expansion.
#[derive(Debug, Clone, PartialEq, Eq)]
pub struct ExistingCommand {
    program: Vec<u8>,
    arguments: Vec<Vec<u8>>,
}

impl ExistingCommand {
    /// The program path, byte for byte.
    pub closed spec fn program_path(&self) -> Seq<u8> {
        self.program@
    }

    /// The argument vector, each argument byte for byte.
    pub closed spec fn argument_list(&self) -> Seq<Seq<u8>> {
        self.arguments@.map_values(|argument: Vec<u8>| argument@)
    }

    /// Construct a command without arguments.
    pub fn new(program: Vec<u8>) -> (command: Self)
        ensures
            command.program_path() == program@,
            command.argument_list() == Seq::<Seq<u8>>::empty(),
    {
        let command = ExistingCommand { program, arguments: Vec::new() };
        assert(command.argument_list() =~= Seq::<Seq<u8>>::empty());
        command
    }

    /// Append one argument without parsing or rewriting it.
    pub fn arg(self, argument: Vec<u8>) -> (command: Self)
        ensures
            command.program_path() == self.program_path(),
            command.argument_list() == self.argument_list().push(argument@),
    {
        let ghost before = self.argument_list();
        let ExistingCommand { program, mut arguments } = self;
        arguments.push(argument);
        let command = ExistingCommand { program, arguments };
        assert(command.argument_list() =~= before.push(argument@));
        command
    }

    /// Append arguments, in order, without parsing or rewriting them.
    pub fn args(self, arguments: Vec<Vec<u8>>) -> (command: Self)
        ensures
            command.program_path() == self.program_path(),
            command.argument_list() == self.argument_list() + arguments@.map_values(
                |argument: Vec<u8>| argument@,
            ),
    {
        let ghost before = self.argument_list();
        let ghost added = arguments@.map_values(|argument: Vec<u8>| argument@);
        let ExistingCommand { program, arguments: mut held } = self;
        let mut more = arguments;
        held.append(&mut more);
        let command = ExistingCommand { program, arguments: held };
        assert(command.argument_list() =~= before + added);
        command
    }

    /// Return the exact program path.
    pub fn program(&self) -> (program: &[u8])
        ensures
            program@ == self.program_path(),
    {
        self.program.as_slice()
    }

    /// Return the exact argument vector.
    pub fn arguments(&self) -> (arguments: &[Vec<u8>])
        ensures
            arguments@.map_values(|argument: Vec<u8>| argument@) == self.argument_list(),
    {
        self.arguments.as_slice()
    }

    /// Whether the program path is absolute, that is, starts with the separator.
    pub fn program_is_absolute(&self) -> (absolute: bool)
        ensures
            absolute == is_absolute_path(self.program_path()),
            absolute == (self.program_path().len() > 0 && self.program_path()[0] == 0x2fu8),
    {
        self.program.len() > 0 && self.program[0] == PATH_SEPARATOR
    }
}

/// A path is absolute exactly when its first byte is `/`: every path that starts with `/` is
/// absolute whatever follows, and a path that is empty or starts with any other byte (`~`,
/// `.`, a letter) is relative.
pub proof fn lemma_absolute_iff_leading_slash(path: Seq<u8>)
    ensures
        is_absolute_path(path) <==> (path.len() > 0 && path[0] == 0x2fu8),
        path.len() > 0 && path[0] == 0x2fu8 ==> is_absolute_path(path),
        path.len() == 0 || path[0] != 0x2fu8 ==> !is_absolute_path(path),
{
}

} // verus!
