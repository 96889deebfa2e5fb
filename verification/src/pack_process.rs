//! Running the tools of packs: requests are held against verified declarations.

use crate::effects::{execution_failure, fails, CredentialReference, ExecutionError};
use crate::entries::{clone_entries, is_same_map, lookup, same_map, text_entries, value_of, Entry};
use crate::pack_extensions::PackProcessDeclaration;
use crate::text::{
    clone_texts, concat3, containing_is_standing_between, has_prefix, same_text, same_texts, strip_prefix, views,
};
use vstd::prelude::*;
use vstd::string::*;
use vstd::utf8::*;

verus! {

/// What a request to run a tool of a pack states.
#[derive(Debug)]
pub struct PackToolEffectInput {
    pub pack: String,
    pub version: String,
    pub manifest_sha256: String,
    pub tool: String,
    pub executable: String,
    pub cwd: String,
    pub args: Vec<String>,
    pub environment: Vec<Entry<String>>,
    pub permissions: Vec<String>,
}

/// What a request states is exactly what is declared; the variables of its environment count in any
/// order.
pub open spec fn states(input: PackToolEffectInput, declared: PackProcessDeclaration) -> bool {
    &&& input.pack@ == declared.pack@
    &&& input.version@ == declared.version@
    &&& input.manifest_sha256@ == declared.manifest_sha256@
    &&& input.tool@ == declared.tool@
    &&& input.executable@ == declared.executable@
    &&& input.cwd@ == declared.cwd@
    &&& views(input.args@) == views(declared.args@)
    &&& same_map(input.environment@, declared.environment@)
    &&& views(input.permissions@) == views(declared.permissions@)
}

/// The request to run a declared tool.
pub fn invocation(declarations: &Vec<Entry<PackProcessDeclaration>>, tool: &str) -> (input: Option<PackToolEffectInput>)
    ensures
        match value_of(declarations@, tool@) {
            None => input is None,
            Some(declaration) => input matches Some(stated) && states(stated, declaration) && text_entries(
                stated.environment@,
            ) == text_entries(declaration.environment@),
        },
{
    match lookup(declarations, tool) {
        None => None,
        Some(declaration) => Some(
            PackToolEffectInput {
                pack: declaration.pack.clone(),
                version: declaration.version.clone(),
                manifest_sha256: declaration.manifest_sha256.clone(),
                tool: declaration.tool.clone(),
                executable: declaration.executable.clone(),
                cwd: declaration.cwd.clone(),
                args: clone_texts(&declaration.args),
                environment: clone_entries(&declaration.environment),
                permissions: clone_texts(&declaration.permissions),
            },
        ),
    }
}

fn is_stated(input: &PackToolEffectInput, declaration: &PackProcessDeclaration) -> (yes: bool)
    ensures
        yes == states(*input, *declaration),
{
    same_text(input.pack.as_str(), declaration.pack.as_str()) && same_text(
        input.version.as_str(),
        declaration.version.as_str(),
    ) && same_text(input.manifest_sha256.as_str(), declaration.manifest_sha256.as_str()) && same_text(
        input.tool.as_str(),
        declaration.tool.as_str(),
    ) && same_text(input.executable.as_str(), declaration.executable.as_str()) && same_text(
        input.cwd.as_str(),
        declaration.cwd.as_str(),
    ) && same_texts(&input.args, &declaration.args) && is_same_map(&input.environment, &declaration.environment)
        && same_texts(&input.permissions, &declaration.permissions)
}

/// A text is among the values.
pub open spec fn has_value(list: Seq<Entry<String>>, value: Seq<char>) -> bool {
    exists|i: int| 0 <= i < list.len() && (#[trigger] list[i]).value@ == value
}

/// A text is among the references.
pub open spec fn has_reference(list: Seq<CredentialReference>, reference: Seq<char>) -> bool {
    exists|i: int| 0 <= i < list.len() && (#[trigger] list[i]).reference@ == reference
}

/// The references of a request are exactly the declared ones, none with a hash of its value.
pub open spec fn references_agree(environment: Seq<Entry<String>>, references: Seq<CredentialReference>) -> bool {
    &&& forall|i: int|
        0 <= i < environment.len() ==> has_reference(references, (#[trigger] environment[i]).value@)
    &&& forall|i: int|
        0 <= i < references.len() ==> has_value(environment, (#[trigger] references[i]).reference@)
            && !references[i].hashed
}

fn find_reference(list: &Vec<CredentialReference>, reference: &str) -> (found: bool)
    ensures
        found == has_reference(list@, reference@),
{
    let mut i: usize = 0;
    while i < list.len()
        invariant
            i <= list@.len(),
            forall|j: int| 0 <= j < i ==> (#[trigger] list@[j]).reference@ != reference@,
        decreases list@.len() - i,
    {
        if same_text(list[i].reference.as_str(), reference) {
            return true;
        }
        i = i + 1;
    }
    false
}

fn find_value(list: &Vec<Entry<String>>, value: &str) -> (found: bool)
    ensures
        found == has_value(list@, value@),
{
    let mut i: usize = 0;
    while i < list.len()
        invariant
            i <= list@.len(),
            forall|j: int| 0 <= j < i ==> (#[trigger] list@[j]).value@ != value@,
        decreases list@.len() - i,
    {
        if same_text(list[i].value.as_str(), value) {
            return true;
        }
        i = i + 1;
    }
    false
}

fn check_references(environment: &Vec<Entry<String>>, references: &Vec<CredentialReference>) -> (yes: bool)
    ensures
        yes == references_agree(environment@, references@),
{
    let mut i: usize = 0;
    while i < environment.len()
        invariant
            i <= environment@.len(),
            forall|j: int| 0 <= j < i ==> has_reference(references@, (#[trigger] environment@[j]).value@),
        decreases environment@.len() - i,
    {
        if !find_reference(references, environment[i].value.as_str()) {
            return false;
        }
        i = i + 1;
    }
    let mut k: usize = 0;
    while k < references.len()
        invariant
            k <= references@.len(),
            forall|j: int|
                0 <= j < k ==> has_value(
                    environment@,
                    (#[trigger] references@[j]).reference@,
                ) && !references@[j].hashed,
        decreases references@.len() - k,
    {
        if references[k].hashed || !find_value(environment, references[k].reference.as_str()) {
            return false;
        }
        k = k + 1;
    }
    true
}

/// Why a request to run a tool is refused, if so.
pub open spec fn request_failure(
    declarations: Seq<Entry<PackProcessDeclaration>>,
    action: Seq<char>,
    resource: Seq<char>,
    input: PackToolEffectInput,
    references: Seq<CredentialReference>,
) -> Option<Seq<char>> {
    match value_of(declarations, input.tool@) {
        None => Some("pack tool is no longer active"@),
        Some(declaration) => if action != declaration.action@ || resource != declaration.executable@ || !states(
            input,
            declaration,
        ) {
            Some("pack tool request does not match its verified declaration"@)
        } else if !references_agree(declaration.environment@, references) {
            Some("pack tool credential references do not match its verified declaration"@)
        } else {
            None
        },
    }
}

/// The declaration behind a request to run a tool: the request has to state exactly what is
/// declared, and refer to exactly the declared credentials.
pub fn accept_pack_request<'a>(
    declarations: &'a Vec<Entry<PackProcessDeclaration>>,
    action: &str,
    resource: &str,
    input: &PackToolEffectInput,
    references: &Vec<CredentialReference>,
) -> (result: Result<&'a PackProcessDeclaration, ExecutionError>)
    ensures
        match request_failure(declarations@, action@, resource@, *input, references@) {
            Some(text) => fails(result, text),
            None => result matches Ok(declaration) && value_of(declarations@, input.tool@) == Some(*declaration),
        },
{
    match lookup(declarations, input.tool.as_str()) {
        None => execution_failure("pack tool is no longer active"),
        Some(declaration) => {
            if !same_text(action, declaration.action.as_str()) || !same_text(resource, declaration.executable.as_str())
                || !is_stated(input, declaration) {
                return execution_failure("pack tool request does not match its verified declaration");
            }
            if !check_references(&declaration.environment, references) {
                return execution_failure("pack tool credential references do not match its verified declaration");
            }
            Ok(declaration)
        },
    }
}

/// The variable that a reference names.
pub open spec fn referenced_variable(reference: Seq<char>) -> Option<Seq<char>> {
    if has_prefix(reference, "env:"@) {
        Some(reference.skip("env:"@.len() as int))
    } else {
        None
    }
}

/// Why the environment of a tool cannot be resolved, if so.
pub open spec fn environment_failure(environment: Seq<Entry<String>>, host: Seq<Entry<String>>) -> Option<Seq<char>>
    decreases environment.len(),
{
    if environment.len() == 0 {
        None
    } else {
        match referenced_variable(environment[0].value@) {
            None => Some("pack credential reference must use env:VARIABLE"@),
            Some(variable) => if value_of(host, variable) is None {
                Some("pack credential reference "@ + environment[0].value@ + " is unresolved"@)
            } else {
                environment_failure(environment.skip(1), host)
            },
        }
    }
}

/// The environment that the references of a tool resolve to.
pub open spec fn resolved_environment(environment: Seq<Entry<String>>, host: Seq<Entry<String>>) -> Seq<
    (Seq<char>, Seq<char>),
> {
    environment.map_values(
        |entry: Entry<String>| (entry.key@, value_of(host, referenced_variable(entry.value@)->0)->0@),
    )
}

/// The environment of a tool: every reference resolved in the environment of the host, which is
/// given by the variables that are set there.
pub fn pack_environment(environment: &Vec<Entry<String>>, host: &Vec<Entry<String>>) -> (result: Result<
    Vec<Entry<String>>,
    ExecutionError,
>)
    ensures
        match environment_failure(environment@, host@) {
            Some(text) => fails(result, text),
            None => result matches Ok(list) && text_entries(list@) == resolved_environment(environment@, host@),
        },
{
    let mut list: Vec<Entry<String>> = Vec::new();
    let mut i: usize = 0;
    proof {
        assert(environment@.skip(0) =~= environment@);
    }
    while i < environment.len()
        invariant
            i <= environment@.len(),
            environment_failure(environment@, host@) == environment_failure(environment@.skip(i as int), host@),
            text_entries(list@) == resolved_environment(environment@.take(i as int), host@),
        decreases environment@.len() - i,
    {
        let entry = &environment[i];
        let ghost before = list@;
        proof {
            assert(environment@.skip(i as int)[0] == *entry);
            assert(environment@.skip(i as int).skip(1) =~= environment@.skip(i + 1));
        }
        match strip_prefix(entry.value.as_str(), "env:") {
            None => {
                return execution_failure("pack credential reference must use env:VARIABLE");
            },
            Some(variable) => match lookup(host, variable.as_str()) {
                None => {
                    let text = concat3("pack credential reference ", entry.value.as_str(), " is unresolved");
                    return execution_failure(text.as_str());
                },
                Some(value) => {
                    let item = Entry { key: entry.key.clone(), value: value.clone() };
                    list.push(item);
                    proof {
                        assert(text_entries(list@) =~= text_entries(before).push((entry.key@, value@)));
                        assert(resolved_environment(environment@.take(i + 1), host@) =~= resolved_environment(
                            environment@.take(i as int),
                            host@,
                        ).push((entry.key@, value@)));
                    }
                },
            },
        }
        i = i + 1;
    }
    proof {
        assert(environment@.take(i as int) =~= environment@);
    }
    Ok(list)
}

/// A process that runs a tool of a pack.
#[derive(Debug)]
pub struct PackProcess {
    pub cwd: String,
    pub args: Vec<String>,
    pub environment: Vec<Entry<String>>,
    /// What must not be shown of the output: the values that references resolved to.
    pub secrets: Vec<Vec<u8>>,
}

/// The values of an environment, as bytes.
pub open spec fn secret_bytes(environment: Seq<Entry<String>>) -> Seq<Seq<u8>> {
    environment.map_values(|entry: Entry<String>| encode_utf8(entry.value@))
}

/// Secrets as bytes.
pub open spec fn byte_views(list: Seq<Vec<u8>>) -> Seq<Seq<u8>> {
    list.map_values(|bytes: Vec<u8>| bytes@)
}

fn list_secrets(environment: &Vec<Entry<String>>) -> (list: Vec<Vec<u8>>)
    ensures
        byte_views(list@) == secret_bytes(environment@),
{
    let mut list: Vec<Vec<u8>> = Vec::new();
    let mut i: usize = 0;
    proof {
        assert(byte_views(list@) =~= secret_bytes(environment@.take(0)));
    }
    while i < environment.len()
        invariant
            i <= environment@.len(),
            byte_views(list@) == secret_bytes(environment@.take(i as int)),
        decreases environment@.len() - i,
    {
        let ghost before = list@;
        let bytes = copied_bytes(environment[i].value.as_str().as_bytes());
        list.push(bytes);
        proof {
            assert(byte_views(list@) =~= byte_views(before).push(bytes@));
            assert(secret_bytes(environment@.take(i + 1)) =~= secret_bytes(environment@.take(i as int)).push(
                encode_utf8(environment@[i as int].value@),
            ));
        }
        i = i + 1;
    }
    proof {
        assert(environment@.take(i as int) =~= environment@);
    }
    list
}

fn copied_bytes(bytes: &[u8]) -> (copy: Vec<u8>)
    ensures
        copy@ == bytes@,
{
    let mut copy: Vec<u8> = Vec::new();
    let mut i: usize = 0;
    while i < bytes.len()
        invariant
            i <= bytes@.len(),
            copy@ == bytes@.take(i as int),
        decreases bytes@.len() - i,
    {
        copy.push(bytes[i]);
        proof {
            assert(bytes@.take(i + 1) =~= bytes@.take(i as int).push(bytes@[i as int]));
        }
        i = i + 1;
    }
    proof {
        assert(bytes@.take(i as int) =~= bytes@);
    }
    copy
}

/// The process that a request to run a tool is carried out by: the declared one, in an environment
/// whose references are resolved in that of the host, and whose values are secrets.
pub fn plan_pack_process(
    declarations: &Vec<Entry<PackProcessDeclaration>>,
    action: &str,
    resource: &str,
    input: &PackToolEffectInput,
    references: &Vec<CredentialReference>,
    host: &Vec<Entry<String>>,
) -> (result: Result<PackProcess, ExecutionError>)
    ensures
        match request_failure(declarations@, action@, resource@, *input, references@) {
            Some(text) => fails(result, text),
            None => {
                let declaration = value_of(declarations@, input.tool@)->0;
                match environment_failure(declaration.environment@, host@) {
                    Some(text) => fails(result, text),
                    None => result matches Ok(process) && {
                        &&& process.cwd == declaration.cwd
                        &&& views(process.args@) == views(declaration.args@)
                        &&& text_entries(process.environment@) == resolved_environment(declaration.environment@, host@)
                        &&& byte_views(process.secrets@) == secret_bytes(process.environment@)
                    },
                }
            },
        },
{
    let declaration = match accept_pack_request(declarations, action, resource, input, references) {
        Ok(declaration) => declaration,
        Err(error) => {
            return Err(error);
        },
    };
    match pack_environment(&declaration.environment, host) {
        Err(error) => Err(error),
        Ok(environment) => {
            let secrets = list_secrets(&environment);
            Ok(
                PackProcess {
                    cwd: declaration.cwd.clone(),
                    args: clone_texts(&declaration.args),
                    environment,
                    secrets,
                },
            )
        },
    }
}

/// The request of an invocation is accepted as long as its tool stays declared, under the declared
/// action and executable and with the declared references.
pub proof fn invocations_are_accepted(
    declarations: Seq<Entry<PackProcessDeclaration>>,
    tool: Seq<char>,
    input: PackToolEffectInput,
    references: Seq<CredentialReference>,
)
    requires
        value_of(declarations, tool) matches Some(declaration) && declaration.tool@ == tool && states(
            input,
            declaration,
        ) && references_agree(declaration.environment@, references),
    ensures
        request_failure(
            declarations,
            value_of(declarations, tool)->0.action@,
            value_of(declarations, tool)->0.executable@,
            input,
            references,
        ) is None,
{
}

/// A pack's tool is asked for exactly as it was declared: nothing of the pack, the tool, the executable,
/// the directory, the arguments, the variables or the permissions may differ.
pub proof fn stated_tools_are_the_declared_ones(input: PackToolEffectInput, declared: PackProcessDeclaration)
    ensures
        states(input, declared) <==> {
            &&& input.pack@ == declared.pack@ && input.version@ == declared.version@
            &&& input.manifest_sha256@ == declared.manifest_sha256@ && input.tool@ == declared.tool@
            &&& input.executable@ == declared.executable@ && input.cwd@ == declared.cwd@
            &&& views(input.args@) == views(declared.args@)
            &&& same_map(input.environment@, declared.environment@)
            &&& views(input.permissions@) == views(declared.permissions@)
        },
{
}

/// A request is accepted exactly where its tool is active, it is the declared action upon the declared
/// executable, it states the declaration, and its credentials are the declared ones.
pub proof fn declared_requests_are_accepted(
    declarations: Seq<Entry<PackProcessDeclaration>>,
    action: Seq<char>,
    resource: Seq<char>,
    input: PackToolEffectInput,
    references: Seq<CredentialReference>,
)
    ensures
        request_failure(declarations, action, resource, input, references) is None <==> {
            let declared = value_of(declarations, input.tool@);
            &&& declared is Some
            &&& action == declared->0.action@
            &&& resource == declared->0.executable@
            &&& states(input, declared->0)
            &&& references_agree(declared->0.environment@, references)
        },
{
}

/// References agree where each variable's reference is among them and each of them is some variable's,
/// none hashed.
pub proof fn references_are_the_declared_ones(environment: Seq<Entry<String>>, references: Seq<CredentialReference>, at: int)
    requires
        references_agree(environment, references),
    ensures
        0 <= at < environment.len() ==> exists|i: int|
            0 <= i < references.len() && (#[trigger] references[i]).reference@ == environment[at].value@,
        0 <= at < references.len() ==> !references[at].hashed && exists|i: int|
            0 <= i < environment.len() && (#[trigger] environment[i]).value@ == references[at].reference@,
        environment.len() == 0 ==> references.len() == 0,
{
    if 0 <= at < environment.len() {
        assert(has_reference(references, environment[at].value@));
    }
    if 0 <= at < references.len() {
        assert(has_value(environment, references[at].reference@));
    }
    if environment.len() == 0 && references.len() > 0 {
        assert(has_value(environment, references[0].reference@));
    }
}

/// A reference names the variable behind its mark, and only a reference with the mark names one.
pub proof fn references_name_their_variable(variable: Seq<char>, reference: Seq<char>)
    ensures
        referenced_variable("env:"@ + variable) == Some(variable),
        referenced_variable(reference) matches Some(named) ==> reference == "env:"@ + named,
{
    containing_is_standing_between("env:"@ + variable, "env:"@);
    containing_is_standing_between(reference, "env:"@);
    assert(("env:"@ + variable).skip("env:"@.len() as int) == variable);
    if has_prefix(reference, "env:"@) {
        let after = choose|after: Seq<char>| reference == #[trigger] ("env:"@ + after);
        assert(reference.skip("env:"@.len() as int) == after);
    }
}

/// Variables are resolved exactly where every reference names a variable that the host has.
pub proof fn set_variables_are_resolved(environment: Seq<Entry<String>>, host: Seq<Entry<String>>)
    ensures
        environment_failure(environment, host) is None <==> forall|i: int|
            0 <= i < environment.len() ==> referenced_variable((#[trigger] environment[i]).value@) is Some
                && value_of(host, referenced_variable(environment[i].value@)->0) is Some,
    decreases environment.len(),
{
    if environment.len() > 0 {
        let rest = environment.skip(1);
        set_variables_are_resolved(rest, host);
        assert(forall|i: int| 0 <= i < rest.len() ==> #[trigger] rest[i] == environment[i + 1]);
        if environment_failure(environment, host) is None {
            assert forall|i: int| 0 <= i < environment.len() implies referenced_variable(
                (#[trigger] environment[i]).value@,
            ) is Some && value_of(host, referenced_variable(environment[i].value@)->0) is Some by {
                if i > 0 {
                    assert(rest[i - 1] == environment[i]);
                }
            }
        }
    }
}

/// Each variable is set to what the host has under the name that its reference gives, and every such
/// value is a secret to be hidden.
pub proof fn variables_hold_the_host_values(environment: Seq<Entry<String>>, host: Seq<Entry<String>>, at: int)
    requires
        0 <= at < environment.len(),
    ensures
        resolved_environment(environment, host).len() == environment.len(),
        resolved_environment(environment, host)[at].0 == environment[at].key@,
        forall|variable: Seq<char>|
            environment[at].value@ == "env:"@ + variable && (#[trigger] value_of(host, variable)) is Some
                ==> resolved_environment(environment, host)[at].1 == value_of(host, variable)->0@,
        secret_bytes(environment).len() == environment.len(),
        secret_bytes(environment)[at] == encode_utf8(environment[at].value@),
{
    assert forall|variable: Seq<char>|
        environment[at].value@ == "env:"@ + variable && (#[trigger] value_of(host, variable)) is Some implies
        resolved_environment(environment, host)[at].1 == value_of(host, variable)->0@ by {
        references_name_their_variable(variable, environment[at].value@);
    }
}

} // verus!
