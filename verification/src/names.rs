//! Generated display names.

use fake::faker::name::en::FirstName;
use fake::Fake;
use vstd::prelude::*;
use vstd::string::*;
use crate::process::Process;
use crate::text::{
    decimal_text, decimal_text_is_injective, is_blank, push_decimal_text, trim, trimmed,
};
use crate::workspace::{name_used, Workspace};

verus! {

/// How many names are drawn to avoid one that is in use.
pub const GENERATED_NAME_ATTEMPTS: usize = 8;

/// How many characters of an identity a fallback name shows.
pub const NAME_SUFFIX_LEN: usize = 8;

/// What a numbered agent name starts with.
pub const GENERATED_AGENT_PREFIX: &'static str = "Agent";

/// Draws a first name with `fake::Fake::fake` from `FirstName`. It is a matter
/// of chance which one, so nothing is said of it.
#[verifier::external_body]
fn draw_name() -> (name: String) {
    FirstName().fake()
}

/// Draws the names that a generated name is picked from.
pub fn draw_names() -> (names: Vec<String>)
    ensures
        names@.len() == GENERATED_NAME_ATTEMPTS,
{
    let mut names: Vec<String> = Vec::new();
    let mut i: usize = 0;
    while i < GENERATED_NAME_ATTEMPTS
        invariant
            i <= GENERATED_NAME_ATTEMPTS,
            names@.len() == i,
        decreases GENERATED_NAME_ATTEMPTS - i,
    {
        names.push(draw_name());
        i = i + 1;
    }
    names
}

/// Whether a name is one that no process uses.
pub open spec fn is_free(name: Seq<char>, processes: Seq<Process>) -> bool {
    trimmed(name).len() > 0 && !name_used(processes, name)
}

/// The first drawn name that is free.
pub open spec fn first_free(names: Seq<String>, processes: Seq<Process>) -> Option<String>
    decreases names.len(),
{
    if names.len() == 0 {
        None
    } else if is_free(names[0]@, processes) {
        Some(names[0])
    } else {
        first_free(names.drop_first(), processes)
    }
}

/// Returns the first drawn name that is free.
pub fn pick_name(names: &Vec<String>, workspace: &Workspace) -> (name: Option<String>)
    ensures
        name == first_free(names@, workspace@.processes),
{
    let mut i: usize = 0;
    assert(names@.skip(0) =~= names@);
    while i < names.len()
        invariant
            i <= names@.len(),
            first_free(names@, workspace@.processes) == first_free(
                names@.skip(i as int),
                workspace@.processes,
            ),
        decreases names@.len() - i,
    {
        if !is_blank(&trim(&names[i])) && !workspace.name_in_use(&names[i]) {
            return Some(names[i].clone());
        }
        assert(names@.skip(i as int).drop_first() =~= names@.skip(i + 1));
        i = i + 1;
    }
    None
}

/// The start of an identity.
pub open spec fn id_start(id: Seq<char>) -> Seq<char> {
    if id.len() <= NAME_SUFFIX_LEN {
        id
    } else {
        id.take(NAME_SUFFIX_LEN as int)
    }
}

/// The name of a session for which no drawn name is free: its provider and the
/// start of its identity.
pub open spec fn fallback_name(label: Seq<char>, id: Seq<char>) -> Seq<char> {
    label + " "@ + id_start(id)
}

/// The name picked for a session from drawn names.
pub open spec fn session_name(
    names: Seq<String>,
    processes: Seq<Process>,
    label: Seq<char>,
    id: Seq<char>,
) -> Seq<char> {
    match first_free(names, processes) {
        Some(name) => name@,
        None => fallback_name(label, id),
    }
}

/// Returns the name picked for a session from drawn names.
pub fn agent_name_from(
    names: &Vec<String>,
    workspace: &Workspace,
    label: &String,
    id: &String,
) -> (name: String)
    ensures
        name@ == session_name(names@, workspace@.processes, label@, id@),
{
    match pick_name(names, workspace) {
        Some(name) => name,
        None => {
            let mut name: String = label.clone();
            name.append(" ");
            let len: usize = id.as_str().unicode_len();
            if len <= NAME_SUFFIX_LEN {
                name.append(id.as_str());
            } else {
                let start: &str = id.as_str().substring_char(0, NAME_SUFFIX_LEN);
                assert(start@ =~= id@.take(NAME_SUFFIX_LEN as int));
                name.append(start);
            }
            name
        },
    }
}

/// Generates a friendly non-identifying name, avoiding active-row collisions
/// when possible and falling back to the provider plus the session's identity.
/// Which name it is rests on chance; that it is picked from some drawn names
/// holds of every draw.
pub fn generated_agent_name(workspace: &Workspace, label: &String, id: &String) -> (name: String)
    ensures
        exists|names: Seq<String>|
            #![trigger session_name(names, workspace@.processes, label@, id@)]
            names.len() == GENERATED_NAME_ATTEMPTS && name@ == session_name(
                names,
                workspace@.processes,
                label@,
                id@,
            ),
{
    let names: Vec<String> = draw_names();
    agent_name_from(&names, workspace, label, id)
}

/// A numbered agent name.
pub open spec fn numbered_name(number: nat) -> Seq<char> {
    GENERATED_AGENT_PREFIX@ + " "@ + decimal_text(number)
}

/// Returns a numbered agent name.
fn number_name(number: u64) -> (name: String)
    ensures
        name@ == numbered_name(number as nat),
{
    let mut name: String = GENERATED_AGENT_PREFIX.to_string();
    name.append(" ");
    push_decimal_text(&mut name, number);
    name
}

/// The first free number from `from` up to `to`.
pub open spec fn free_number(processes: Seq<Process>, from: nat, to: nat) -> Option<nat>
    decreases to + 1 - from,
{
    if from > to {
        None
    } else if !name_used(processes, numbered_name(from)) {
        Some(from)
    } else {
        free_number(processes, from + 1, to)
    }
}

/// The last number tried: one more than there are processes, as far as numbers
/// go.
pub open spec fn last_number(processes: Seq<Process>) -> nat {
    if processes.len() < u64::MAX {
        processes.len() + 1
    } else {
        processes.len()
    }
}

/// The name picked for a configured agent from drawn names: one that is free, or
/// a numbered one.
pub open spec fn configured_name(names: Seq<String>, processes: Seq<Process>) -> Option<Seq<char>> {
    match first_free(names, processes) {
        Some(name) => Some(name@),
        None => match free_number(processes, 1, last_number(processes)) {
            Some(number) => Some(numbered_name(number)),
            None => None,
        },
    }
}

/// Returns the name picked for a configured agent from drawn names.
pub fn configured_name_from(names: &Vec<String>, workspace: &Workspace) -> (name: Option<String>)
    ensures
        crate::text::opt_text(name) == configured_name(names@, workspace@.processes),
{
    if let Some(name) = pick_name(names, workspace) {
        return Some(name);
    }
    let count: u64 = workspace.processes.len() as u64;
    let last: u64 = if count < u64::MAX {
        count + 1
    } else {
        count
    };
    let mut number: u64 = 1;
    while number <= last
        invariant
            last == last_number(workspace@.processes),
            1 <= number,
            first_free(names@, workspace@.processes) is None,
            free_number(workspace@.processes, 1, last as nat) == free_number(
                workspace@.processes,
                number as nat,
                last as nat,
            ),
        decreases last + 1 - number,
    {
        let name: String = number_name(number);
        if !workspace.name_in_use(&name) {
            return Some(name);
        }
        if number == last {
            reveal_with_fuel(free_number, 2);
            return None;
        }
        number = number + 1;
    }
    None
}

/// Generates a friendly agent name unused by any current process, so that a new
/// agent's project-unique session key is guaranteed. Which name it is rests on
/// chance.
pub fn generate_configured_agent_name(workspace: &Workspace) -> (name: Option<String>)
    ensures
        name matches Some(name) ==> !name_used(workspace@.processes, name@),
        workspace@.processes.len() < u64::MAX ==> name is Some,
{
    let names: Vec<String> = draw_names();
    proof {
        configured_names_are_unused(names@, workspace@.processes);
    }
    configured_name_from(&names, workspace)
}

/// Numbered names of different numbers differ.
proof fn numbered_names_differ(a: nat, b: nat)
    ensures
        numbered_name(a) == numbered_name(b) ==> a == b,
{
    if numbered_name(a) == numbered_name(b) {
        let head = GENERATED_AGENT_PREFIX@ + " "@;
        assert(numbered_name(a).skip(head.len() as int) =~= decimal_text(a));
        assert(numbered_name(b).skip(head.len() as int) =~= decimal_text(b));
        decimal_text_is_injective(a, b);
    }
}

/// A number that is found is free; none is found only when all are taken.
proof fn free_number_is_free(processes: Seq<Process>, from: nat, to: nat)
    ensures
        free_number(processes, from, to) matches Some(number) ==> from <= number <= to
            && !name_used(processes, numbered_name(number)),
        free_number(processes, from, to) is None ==> forall|number: nat|
            from <= number <= to ==> name_used(processes, #[trigger] numbered_name(number)),
    decreases to + 1 - from,
{
    if from <= to && name_used(processes, numbered_name(from)) {
        free_number_is_free(processes, from + 1, to);
    }
}

/// As many processes as there are numbers cannot use all of them: a list of
/// processes uses at most as many numbered names as it is long.
proof fn names_need_processes(processes: Seq<Process>, numbers: Seq<nat>)
    requires
        numbers.no_duplicates(),
        forall|i: int|
            0 <= i < numbers.len() ==> name_used(processes, numbered_name(#[trigger] numbers[i])),
    ensures
        numbers.len() <= processes.len(),
    decreases processes.len(),
{
    if processes.len() == 0 {
        if numbers.len() > 0 {
            assert(name_used(processes, numbered_name(numbers[0])));
        }
    } else {
        let rest = processes.drop_last();
        let last = processes.last();
        if exists|i: int|
            0 <= i < numbers.len() && numbered_name(#[trigger] numbers[i]) == last.name@ {
            let k = choose|i: int|
                0 <= i < numbers.len() && numbered_name(#[trigger] numbers[i]) == last.name@;
            let others = numbers.remove(k);
            assert forall|i: int| 0 <= i < others.len() implies name_used(
                rest,
                numbered_name(#[trigger] others[i]),
            ) by {
                let j = if i < k {
                    i
                } else {
                    i + 1
                };
                assert(others[i] == numbers[j]);
                assert(name_used(processes, numbered_name(numbers[j])));
                numbered_names_differ(numbers[j], numbers[k]);
                name_used_earlier(processes, numbered_name(numbers[j]));
            }
            assert(others.no_duplicates()) by {
                assert forall|a: int, b: int|
                    0 <= a < others.len() && 0 <= b < others.len() && a != b implies others[a]
                    != others[b] by {
                    let x = if a < k {
                        a
                    } else {
                        a + 1
                    };
                    let y = if b < k {
                        b
                    } else {
                        b + 1
                    };
                    assert(others[a] == numbers[x] && others[b] == numbers[y] && x != y);
                }
            }
            names_need_processes(rest, others);
        } else {
            assert forall|i: int| 0 <= i < numbers.len() implies name_used(
                rest,
                numbered_name(#[trigger] numbers[i]),
            ) by {
                name_used_earlier(processes, numbered_name(numbers[i]));
            }
            names_need_processes(rest, numbers);
        }
    }
}

/// A name that the last process does not bear is used by an earlier one.
proof fn name_used_earlier(processes: Seq<Process>, name: Seq<char>)
    requires
        processes.len() > 0,
        name_used(processes, name),
        processes.last().name@ != name,
    ensures
        name_used(processes.drop_last(), name),
{
    let i = choose|i: int| 0 <= i < processes.len() && (#[trigger] processes[i]).name@ == name;
    assert(processes.drop_last()[i] == processes[i]);
}

/// A free number is always found among one more than there are processes.
proof fn a_free_number_is_found(processes: Seq<Process>)
    ensures
        free_number(processes, 1, processes.len() + 1) is Some,
{
    free_number_is_free(processes, 1, processes.len() + 1);
    if free_number(processes, 1, processes.len() + 1) is None {
        let numbers = Seq::new(processes.len() + 1, |i: int| (i + 1) as nat);
        assert forall|i: int| 0 <= i < numbers.len() implies name_used(
            processes,
            numbered_name(#[trigger] numbers[i]),
        ) by {
            let number = numbers[i];
            assert(1 <= number <= processes.len() + 1);
            assert(name_used(processes, numbered_name(number)));
        }
        names_need_processes(processes, numbers);
    }
}

/// Whatever names are drawn, a name that a configured agent gets is one that no
/// process uses, and it always gets one.
pub proof fn configured_names_are_unused(names: Seq<String>, processes: Seq<Process>)
    ensures
        configured_name(names, processes) matches Some(name) ==> !name_used(processes, name),
        processes.len() < u64::MAX ==> configured_name(names, processes) is Some,
{
    first_free_is_free(names, processes);
    if processes.len() < u64::MAX {
        a_free_number_is_found(processes);
    }
    free_number_is_free(processes, 1, last_number(processes));
}

/// A picked name is one of the drawn ones, and free.
pub proof fn first_free_is_free(names: Seq<String>, processes: Seq<Process>)
    ensures
        first_free(names, processes) matches Some(name) ==> names.contains(name) && is_free(
            name@,
            processes,
        ),
    decreases names.len(),
{
    if names.len() > 0 {
        if is_free(names[0]@, processes) {
            assert(names.contains(names[0]));
        } else {
            first_free_is_free(names.drop_first(), processes);
            match first_free(names, processes) {
                Some(name) => {
                    let i = choose|i: int|
                        0 <= i < names.drop_first().len() && names.drop_first()[i] == name;
                    assert(names[i + 1] == name);
                },
                None => {},
            }
        }
    }
}

} // verus!
