//! Commands that run on machines, and the handling of their output.
//!
//! A command is executed either as a child process of this host or over SSH
//! on a remote machine. For the remote case the command is reconstructed as a
//! single shell line; both cases share the output handling, which strips ANSI
//! escapes and turns a non-zero exit into an error carrying the full command
//! line and the captured output.

use vstd::prelude::*;
use vstd::string::StringExecFns;

use crate::error::Error;

verus! {

/// A command that can be run on a machine.
#[derive(Debug, Clone)]
pub struct Command {
    /// The path of the command to execute.
    pub executable: String,
    /// The CLI arguments to the command.
    pub args: Vec<String>,
    /// Environment variables to pass to the command process.
    pub env: Vec<(String, String)>,
    /// The directory in which to run the command.
    pub current_dir: Option<String>,
}

/// `items` joined by `sep`.
pub open spec fn spec_join(items: Seq<Seq<char>>, sep: Seq<char>) -> Seq<char>
    decreases items.len(),
{
    if items.len() == 0 {
        Seq::empty()
    } else if items.len() == 1 {
        items[0]
    } else {
        spec_join(items.drop_last(), sep) + sep + items.last()
    }
}

/// Join strings with a separator.
pub fn join(items: &Vec<String>, sep: &str) -> (r: String)
    ensures
        r@ == spec_join(items@.map_values(|s: String| s@), sep@),
{
    let ghost view = items@.map_values(|s: String| s@);
    let mut out = String::new();
    let mut i: usize = 0;
    while i < items.len()
        invariant
            i <= items.len(),
            view == items@.map_values(|s: String| s@),
            out@ == spec_join(view.take(i as int), sep@),
        decreases items.len() - i,
    {
        if i > 0 {
            out.append(sep);
        }
        out.append(items[i].as_str());
        proof {
            assert(view.take(i + 1).drop_last() =~= view.take(i as int));
            assert(view.take(i + 1).last() == view[i as int]);
        }
        i += 1;
    }
    proof {
        assert(view.take(items@.len() as int) =~= view);
    }
    out
}

/// One environment assignment as it appears on a shell line.
pub open spec fn spec_env_entry(pair: (String, String)) -> Seq<char> {
    pair.0@ + "="@ + pair.1@
}

/// Render environment pairs as `K=V` strings.
pub fn env_entries(env: &Vec<(String, String)>) -> (r: Vec<String>)
    ensures
        r@.map_values(|s: String| s@) == env@.map_values(|p: (String, String)| spec_env_entry(p)),
{
    let ghost target = env@.map_values(|p: (String, String)| spec_env_entry(p));
    let mut out: Vec<String> = Vec::new();
    let mut i: usize = 0;
    while i < env.len()
        invariant
            i <= env.len(),
            target == env@.map_values(|p: (String, String)| spec_env_entry(p)),
            out@.map_values(|s: String| s@) =~~= target.take(i as int),
        decreases env.len() - i,
    {
        let mut entry = env[i].0.clone();
        entry.append("=");
        entry.append(env[i].1.as_str());
        proof {
            assert(entry@ == spec_env_entry(env@[i as int]));
            assert(target[i as int] == spec_env_entry(env@[i as int]));
        }
        let ghost ev = entry;
        let ghost pre = out@;
        out.push(entry);
        proof {
            let f = |s: String| s@;
            pre.lemma_push_map_commute(f, ev);
            assert(target.take(i + 1) =~= target.take(i as int).push(target[i as int]));
            assert(out@.map_values(f) == pre.map_values(f).push(f(ev)));
            assert(out@.map_values(|s: String| s@) == target.take(i + 1));
        }
        i += 1;
    }
    proof {
        assert(target.take(env@.len() as int) =~= target);
    }
    out
}

/// The shell line that runs a command on a remote machine: change into the
/// project directory, set the environment, run the executable with its
/// arguments.
pub open spec fn spec_remote_line(c: Command) -> Seq<char> {
    let dir_part = match c.current_dir {
        Some(d) => "/"@ + d@,
        None => Seq::<char>::empty(),
    };
    let env_part = spec_join(c.env@.map_values(|p: (String, String)| spec_env_entry(p)), " "@);
    let args_part = spec_join(c.args@.map_values(|s: String| s@), " "@);
    "cd ~/viewview"@ + dir_part + " && "@ + env_part + " "@ + c.executable@ + " "@ + args_part
}

impl Command {
    /// The shell line that runs this command on a remote machine.
    pub fn remote_line(&self) -> (r: String)
        ensures
            r@ == spec_remote_line(*self),
    {
        let mut line = String::from_str("cd ~/viewview");
        match &self.current_dir {
            Some(d) => {
                line.append("/");
                line.append(d.as_str());
            },
            None => {},
        }
        line.append(" && ");
        let entries = env_entries(&self.env);
        let env_part = join(&entries, " ");
        line.append(env_part.as_str());
        line.append(" ");
        line.append(self.executable.as_str());
        line.append(" ");
        let args_part = join(&self.args, " ");
        line.append(args_part.as_str());
        line
    }
}

/// The convenience command that pushes a file to the object store.
pub fn sync_file_to_s3_command(source: &str, destination: &str) -> (r: Command)
    ensures
        r.executable@ == "./ctl.sh"@,
        r.args@.map_values(|s: String| s@) == seq!["s3"@, "put"@, source@, destination@],
        r.env@.len() == 0,
        r.current_dir is None,
{
    let mut args: Vec<String> = Vec::new();
    args.push(String::from_str("s3"));
    args.push(String::from_str("put"));
    args.push(String::from_str(source));
    args.push(String::from_str(destination));
    proof {
        assert(args@.map_values(|s: String| s@) =~= seq!["s3"@, "put"@, source@, destination@]);
    }
    Command {
        executable: String::from_str("./ctl.sh"),
        args,
        env: Vec::new(),
        current_dir: None,
    }
}

/// The convenience command that pulls a file from the object store.
pub fn sync_file_from_s3_command(from: &str, to: &str) -> (r: Command)
    ensures
        r.executable@ == "./ctl.sh"@,
        r.args@.map_values(|s: String| s@) == seq!["s3"@, "get"@, "--force"@, from@, to@],
        r.env@.len() == 0,
        r.current_dir is None,
{
    let mut args: Vec<String> = Vec::new();
    args.push(String::from_str("s3"));
    args.push(String::from_str("get"));
    args.push(String::from_str("--force"));
    args.push(String::from_str(from));
    args.push(String::from_str(to));
    proof {
        assert(args@.map_values(|s: String| s@) =~= seq![
            "s3"@,
            "get"@,
            "--force"@,
            from@,
            to@,
        ]);
    }
    Command {
        executable: String::from_str("./ctl.sh"),
        args,
        env: Vec::new(),
        current_dir: None,
    }
}

/// What stripping ANSI escape sequences leaves of a text.
pub uninterp spec fn stripped_of(s: Seq<char>) -> Seq<char>;

/// Relies on strip_ansi_escapes::strip_str: removes ANSI escape sequences; the
/// result depends on the input characters alone.
#[verifier::external_body]
fn strip_ansi(s: &str) -> (r: String)
    ensures
        r@ == stripped_of(s@),
{
    strip_ansi_escapes::strip_str(s)
}

/// The message reported for a command that exited non-zero: the command line
/// and both captured streams, ANSI escapes stripped.
pub open spec fn spec_failure_message(
    command_line: Seq<char>,
    out: Seq<char>,
    err: Seq<char>,
) -> Seq<char> {
    command_line + "\nSTDOUT:\n"@ + out + "\nSTDERR:\n"@ + err + "\n"@
}

/// Turn a finished command's exit status and captured output into a result:
/// the raw stdout on success, and on non-zero exit an error whose message
/// holds the command line, the stdout and the stderr, escapes stripped.
pub fn handle_output(command_line: &str, exit_status: u64, stdout: &str, stderr: &str) -> (r:
    Result<String, Error>)
    ensures
        exit_status == 0 <==> r is Ok,
        r matches Ok(out) ==> out@ == stdout@,
        r matches Err(e) ==> e matches Error::ExternalCommandFailure(m) && m@
            == spec_failure_message(command_line@, stripped_of(stdout@), stripped_of(stderr@)),
{
    let stripped_out = strip_ansi(stdout);
    let stripped_err = strip_ansi(stderr);
    if exit_status == 0 {
        Ok(String::from_str(stdout))
    } else {
        let mut message = String::from_str(command_line);
        message.append("\nSTDOUT:\n");
        message.append(stripped_out.as_str());
        message.append("\nSTDERR:\n");
        message.append(stripped_err.as_str());
        message.append("\n");
        Err(Error::ExternalCommandFailure(message))
    }
}

} // verus!
