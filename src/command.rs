use vstd::prelude::*;

verus! {

/// A program to run, with its arguments.
pub struct CommandLine {
    pub program: String,
    pub args: Vec<String>,
}

impl View for CommandLine {
    type V = (Seq<char>, Seq<Seq<char>>);

    open spec fn view(&self) -> (Seq<char>, Seq<Seq<char>>) {
        (self.program@, self.args@.map_values(|a: String| a@))
    }
}

/// A program that could not be launched or exited unsuccessfully.
pub struct CommandError {
    pub program: String,
    pub stderr: String,
    /// The exit code, where the process ran and reported one.
    pub exit_code: Option<i32>,
}

impl CommandError {
    /// A one-line account of the failure.
    pub fn describe(&self) -> (r: String)
        ensures
            r@ == self.program@ + " failed: "@ + self.stderr@,
    {
        let mut r = self.program.clone();
        r.append(" failed: ");
        r.append(self.stderr.as_str());
        r
    }
}

/// Maps a finished process to its captured standard output, or to the error
/// that carries its standard error and exit code.
pub fn finish_command(program: &str, succeeded: bool, exit_code: Option<i32>, stdout: String, stderr: String) -> (r: Result<String, CommandError>)
    ensures
        succeeded ==> (r matches Ok(out) && out@ == stdout@),
        !succeeded ==> (r matches Err(e) && e.program@ == program@ && e.stderr@ == stderr@
            && e.exit_code == exit_code),
{
    if succeeded {
        Ok(stdout)
    } else {
        Err(CommandError { program: program.to_owned(), stderr, exit_code })
    }
}

/// The error for a program that could not be started at all.
pub fn launch_failure(program: &str, reason: String) -> (r: CommandError)
    ensures
        r.program@ == program@,
        r.stderr@ == reason@,
        r.exit_code is None,
{
    CommandError { program: program.to_owned(), stderr: reason, exit_code: None }
}

pub open spec fn line_of(program: Seq<char>, args: Seq<Seq<char>>) -> (Seq<char>, Seq<Seq<char>>) {
    (program, args)
}

/// The site build: the generator with minified output.
pub fn build_command() -> (r: CommandLine)
    ensures
        r@ == line_of("hugo"@, seq!["--minify"@]),
{
    let r = CommandLine { program: String::from_str("hugo"), args: vec![String::from_str("--minify")] };
    proof {
        assert(r.args@.map_values(|a: String| a@) =~= seq!["--minify"@]);
    }
    r
}

} // verus!
