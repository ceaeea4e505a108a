//! Commands to be run and daemons to be spawned, as plain values.
use vstd::prelude::*;

verus! {

/// A program to run, its arguments in order, and the variables to add to its environment.
/// Of two variables of one name the later one counts.
pub struct Command {
    pub program: String,
    pub args: Vec<String>,
    pub envs: Vec<(String, String)>,
}

/// What a [`Command`] says.
#[verifier::ext_equal]
pub struct CommandView {
    pub program: Seq<char>,
    pub args: Seq<Seq<char>>,
    pub envs: Map<Seq<char>, Seq<char>>,
}

/// The environment that a list of variables sets up.
pub open spec fn env_map(envs: Seq<(String, String)>) -> Map<Seq<char>, Seq<char>>
    decreases envs.len(),
{
    if envs.len() == 0 {
        Map::empty()
    } else {
        env_map(envs.drop_last()).insert(envs.last().0@, envs.last().1@)
    }
}

/// The texts of a list of strings.
pub open spec fn texts(strings: Seq<String>) -> Seq<Seq<char>> {
    strings.map_values(|s: String| s@)
}

/// The command that runs `program` with `args` in an unchanged environment.
pub open spec fn plain_command(program: Seq<char>, args: Seq<Seq<char>>) -> CommandView {
    CommandView { program, args, envs: Map::empty() }
}

impl View for Command {
    type V = CommandView;

    open spec fn view(&self) -> CommandView {
        CommandView {
            program: self.program@,
            args: texts(self.args@),
            envs: env_map(self.envs@),
        }
    }
}

impl Command {
    /// The command that runs `program` without arguments.
    pub fn new(program: &str) -> (r: Self)
        ensures
            r@ == plain_command(program@, Seq::empty()),
    {
        let r = Command { program: program.to_owned(), args: Vec::new(), envs: Vec::new() };
        assert(texts(r.args@) =~= Seq::empty());
        r
    }

    /// Adds an argument behind those that are there.
    pub fn arg(self, arg: String) -> (r: Self)
        ensures
            r@ == (CommandView { args: self@.args.push(arg@), ..self@ }),
    {
        let mut this = self;
        let ghost before = this.args@;
        this.args.push(arg);
        assert(texts(this.args@) =~= texts(before).push(arg@));
        this
    }

    /// Sets a variable of the command's environment.
    pub fn env(self, name: &str, value: String) -> (r: Self)
        ensures
            r@ == (CommandView { envs: self@.envs.insert(name@, value@), ..self@ }),
    {
        let mut this = self;
        let ghost before = this.envs@;
        this.envs.push((name.to_owned(), value));
        assert(this.envs@.drop_last() =~= before);
        this
    }
}

/// A command that is to run in the background, and the name under which it is managed.
pub struct Daemon {
    pub name: String,
    pub command: Command,
}

/// What a command says is what it holds: its program, and its arguments one for one.
pub proof fn law_command_says_what_it_holds(command: Command)
    ensures
        command@.program == command.program@,
        command@.args.len() == command.args@.len(),
        forall|i: int| 0 <= i < command.args@.len() ==> #[trigger] command@.args[i]
            == command.args@[i]@,
        command@.envs == Map::<Seq<char>, Seq<char>>::empty() ==> command.envs@.len() == 0,
{
    if command.envs@.len() > 0 {
        let i = command.envs@.len() - 1;
        law_environment_holds_the_last_value(command.envs@, i);
        assert(command@.envs.contains_key(command.envs@[i].0@));
    }
}

/// A variable is in the environment if the list names it, with the value that it names last.
pub proof fn law_environment_holds_the_last_value(envs: Seq<(String, String)>, i: int)
    requires
        0 <= i < envs.len(),
        forall|j: int| i < j < envs.len() ==> (#[trigger] envs[j]).0@ != envs[i].0@,
    ensures
        env_map(envs).contains_key(envs[i].0@),
        env_map(envs)[envs[i].0@] == envs[i].1@,
    decreases envs.len(),
{
    if i < envs.len() - 1 {
        let rest = envs.drop_last();
        assert forall|j: int| i < j < rest.len() implies (#[trigger] rest[j]).0@ != rest[i].0@ by {
            assert(envs[j].0@ != envs[i].0@);
        }
        law_environment_holds_the_last_value(rest, i);
        assert(envs[envs.len() - 1].0@ != envs[i].0@);
    }
}

/// A variable that the list does not name is not in the environment.
pub proof fn law_environment_holds_no_other(envs: Seq<(String, String)>, name: Seq<char>)
    requires
        forall|i: int| 0 <= i < envs.len() ==> (#[trigger] envs[i]).0@ != name,
    ensures
        !env_map(envs).contains_key(name),
    decreases envs.len(),
{
    if envs.len() > 0 {
        let rest = envs.drop_last();
        assert forall|i: int| 0 <= i < rest.len() implies (#[trigger] rest[i]).0@ != name by {
            assert(envs[i].0@ != name);
        }
        law_environment_holds_no_other(rest, name);
        assert(envs[envs.len() - 1].0@ != name);
    }
}

/// A plain command has the program and the arguments that it is made of, and no environment.
pub proof fn law_plain_command(program: Seq<char>, args: Seq<Seq<char>>)
    ensures
        plain_command(program, args).program == program,
        plain_command(program, args).args == args,
        plain_command(program, args).envs == Map::<Seq<char>, Seq<char>>::empty(),
{
}

} // verus!
