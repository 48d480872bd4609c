use vstd::prelude::*;
use vstd::string::StringExecFns;

verus! {

/// A slash command as far as its texts go: its name and the names of its parameters.
pub struct CommandLabels {
    pub name: String,
    pub parameters: Vec<String>,
}

/// The keys under which the locale tables hold a name and a description.
pub struct LabelKeys {
    pub name: String,
    pub description: String,
}

/// The keys of a command and of each of its parameters, in their order.
pub struct CommandKeys {
    pub command: LabelKeys,
    pub parameters: Vec<LabelKeys>,
}

/// The key of the name of a command.
pub open spec fn name_key(command: Seq<char>) -> Seq<char> {
    "command."@ + command + ".name"@
}

/// The key of the description of a command.
pub open spec fn description_key(command: Seq<char>) -> Seq<char> {
    "command."@ + command + ".description"@
}

/// The key of the name of a parameter of a command.
pub open spec fn parameter_name_key(command: Seq<char>, parameter: Seq<char>) -> Seq<char> {
    "command."@ + command + "."@ + parameter + ".name"@
}

/// The key of the description of a parameter of a command.
pub open spec fn parameter_description_key(command: Seq<char>, parameter: Seq<char>) -> Seq<
    char,
> {
    "command."@ + command + "."@ + parameter + ".description"@
}

/// Whether `keys` are the keys of parameter `parameter` of `command`.
pub open spec fn is_parameter_keys(keys: LabelKeys, command: Seq<char>, parameter: Seq<char>) -> bool {
    &&& keys.name@ == parameter_name_key(command, parameter)
    &&& keys.description@ == parameter_description_key(command, parameter)
}

/// Whether `keys` are the keys of `command` and of its parameters.
pub open spec fn is_command_keys(keys: CommandKeys, command: CommandLabels) -> bool {
    &&& keys.command.name@ == name_key(command.name@)
    &&& keys.command.description@ == description_key(command.name@)
    &&& keys.parameters@.len() == command.parameters@.len()
    &&& forall|at: int|
        0 <= at < command.parameters@.len() ==> is_parameter_keys(
            #[trigger] keys.parameters@[at],
            command.name@,
            command.parameters@[at]@,
        )
}

pub struct I18nHandler;

impl I18nHandler {
    /// The keys of one command.
    pub fn command_keys(command: &str) -> (keys: LabelKeys)
        ensures
            keys.name@ == name_key(command@),
            keys.description@ == description_key(command@),
    {
        LabelKeys {
            name: String::from_str("command.").concat(command).concat(".name"),
            description: String::from_str("command.").concat(command).concat(".description"),
        }
    }

    /// The keys of one parameter of a command.
    pub fn parameter_keys(command: &str, parameter: &str) -> (keys: LabelKeys)
        ensures
            is_parameter_keys(keys, command@, parameter@),
    {
        LabelKeys {
            name: String::from_str("command.").concat(command).concat(".").concat(parameter).concat(
                ".name",
            ),
            description: String::from_str("command.").concat(command).concat(".").concat(
                parameter,
            ).concat(".description"),
        }
    }

    /// The keys of the texts of every command, under which the locale tables
    /// hold what each language calls it.
    pub fn internationalize_slash(commands: &Vec<CommandLabels>) -> (keys: Vec<CommandKeys>)
        ensures
            keys@.len() == commands@.len(),
            forall|at: int|
                0 <= at < commands@.len() ==> is_command_keys(#[trigger] keys@[at], commands@[at]),
    {
        let mut keys: Vec<CommandKeys> = Vec::new();
        let mut at: usize = 0;
        while at < commands.len()
            invariant
                at <= commands@.len(),
                keys@.len() == at,
                forall|k: int| 0 <= k < at ==> is_command_keys(#[trigger] keys@[k], commands@[k]),
            decreases commands@.len() - at,
        {
            let command = &commands[at];
            let mut parameters: Vec<LabelKeys> = Vec::new();
            let mut index: usize = 0;
            while index < command.parameters.len()
                invariant
                    index <= command.parameters@.len(),
                    parameters@.len() == index,
                    forall|k: int|
                        0 <= k < index ==> is_parameter_keys(
                            #[trigger] parameters@[k],
                            command.name@,
                            command.parameters@[k]@,
                        ),
                decreases command.parameters@.len() - index,
            {
                parameters.push(
                    Self::parameter_keys(command.name.as_str(), command.parameters[index].as_str()),
                );
                index += 1;
            }
            keys.push(
                CommandKeys { command: Self::command_keys(command.name.as_str()), parameters },
            );
            at += 1;
        }
        keys
    }
}

} // verus!
