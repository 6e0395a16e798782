use crate::capability::Capability;
use crate::error::ProviderError;
use crate::script::{Command, CommandView, NativeCapability, Step};
use vstd::prelude::*;

verus! {

/// The number that a row of decimal digits stands for.
pub open spec fn number_read(digits: Seq<char>) -> int
    decreases digits.len(),
{
    if digits.len() == 0 {
        0
    } else {
        10 * number_read(digits.drop_last()) + (digits.last() as int - '0' as int)
    }
}

/// Whether the text is a row of decimal digits without superfluous zeros in front.
pub open spec fn is_plain_number(text: Seq<char>) -> bool {
    &&& text.len() > 0
    &&& forall|i: int| 0 <= i < text.len() ==> '0' <= #[trigger] text[i] <= '9'
    &&& text.len() > 1 ==> text[0] != '0'
}

/// What is written for a number reads as that number: its digits, with a minus sign in front if the
/// number is negative.
pub proof fn law_written_number_reads_back(n: int)
    ensures
        n >= 0 ==> is_plain_number(crate::text::decimal(n)) && number_read(crate::text::decimal(n))
            == n,
        n < 0 ==> {
            &&& crate::text::decimal(n)[0] == '-'
            &&& is_plain_number(crate::text::decimal(n).skip(1))
            &&& number_read(crate::text::decimal(n).skip(1)) == -n
        },
{
    let magnitude = if n < 0 {
        (-n) as nat
    } else {
        n as nat
    };
    lemma_digits_read(magnitude);
    if n < 0 {
        assert(crate::text::decimal(n).skip(1) =~= crate::text::digits(magnitude));
    }
}

proof fn lemma_digits_read(n: nat)
    ensures
        is_plain_number(crate::text::digits(n)),
        number_read(crate::text::digits(n)) == n,
        n > 0 ==> crate::text::digits(n)[0] != '0',
    decreases n,
{
    let text = crate::text::digits(n);
    if n < 10 {
        assert(text.drop_last() =~= seq![]);
        reveal_with_fuel(number_read, 2);
    } else {
        lemma_digits_read(n / 10);
        assert(text.drop_last() =~= crate::text::digits(n / 10));
        assert(text.last() as int - '0' as int == n % 10);
    }
}

/// The views of strings keep their number, their order, their keys and all that they hold.
pub proof fn law_texts_are_kept(
    strings: Seq<String>,
    string: Option<String>,
    map: Map<Seq<char>, String>,
)
    ensures
        crate::text::texts(strings).len() == strings.len(),
        forall|i: int|
            0 <= i < strings.len() ==> #[trigger] crate::text::texts(strings)[i] == strings[i]@,
        string is Some <==> crate::text::optional_text(string) is Some,
        string is Some ==> crate::text::optional_text(string)->0 == string->0@,
        crate::text::value_texts(map).dom() == map.dom(),
        forall|key: Seq<char>| #[trigger]
            map.contains_key(key) ==> crate::text::value_texts(map)[key] == map[key]@,
{
}

/// The view of a map made of distinct keys and of values that stand side by side has each key with
/// its value, and no other key.
pub proof fn law_keys_go_with_their_values<V>(keys: Seq<String>, values: Seq<V>, key: Seq<char>)
    requires
        keys.len() == values.len(),
        crate::string_map::keys_distinct(keys),
    ensures
        forall|i: int, j: int|
            0 <= i < j < keys.len() ==> (#[trigger] keys[i])@ != (#[trigger] keys[j])@,
        forall|i: int|
            0 <= i < keys.len() ==> {
                &&& crate::string_map::zipped(keys, values).contains_key((#[trigger] keys[i])@)
                &&& crate::string_map::zipped(keys, values)[keys[i]@] == values[i]
            },
        crate::string_map::zipped(keys, values).contains_key(key) ==> exists|i: int|
            0 <= i < keys.len() && (#[trigger] keys[i])@ == key,
{
    assert forall|i: int| 0 <= i < keys.len() implies {
        &&& crate::string_map::zipped(keys, values).contains_key((#[trigger] keys[i])@)
        &&& crate::string_map::zipped(keys, values)[keys[i]@] == values[i]
    } by {
        let j = choose|j: int| 0 <= j < keys.len() && (#[trigger] keys[j])@ == keys[i]@;
        assert(keys[i]@ == keys[i]@);
        assert(i == j);
    }
}

/// An error says what went wrong with what: the names, the port and the cause stand in its text in
/// full, between fixed words.
pub proof fn law_errors_speak_plainly(error: ProviderError)
    ensures
        error matches ProviderError::InitContainers { pod_name } ==> error.text() == "Cannot run "@
            + pod_name@ + ": spec specifies init containers which are not supported on wasCC"@,
        error matches ProviderError::ContainerArgs { container_name } ==> error.text()
            == "Cannot run "@ + container_name@
            + ": spec specifies container args which are not supported on wasCC"@,
        error matches ProviderError::PortInUse { port } ==> error.text() == "Port "@
            + crate::text::decimal(port as int) + " is currently in use"@,
        error is PortAllocation ==> error.text() == "all ports are currently in use"@,
        error matches ProviderError::VolumeNotFound { volume_name, container_name } ==> error.text()
            == "no volume with the name of "@ + volume_name@ + " found for container "@
            + container_name@,
        error matches ProviderError::LoadModule { cause } ==> error.text()
            == "Error loading WASM: "@ + cause@,
        error matches ProviderError::ContainerNotStarted { cause } ==> error.text()
            == "Failed to run pod: "@ + cause@,
        error matches ProviderError::PodNotFound { pod_name } ==> error.text()
            == "cannot find pod "@ + pod_name@,
{
}

/// The error of a step that has failed says which step that was and ends in the cause; for steps
/// that are not the waSCC host's it is the cause alone.
pub proof fn law_failed_steps_speak_plainly(step: Step, cause: String)
    ensures
        ({
            let text = (ProviderError::StepFailed { step, cause }).text();
            &&& step == Step::InstantiateCapability(NativeCapability::Http) ==> text
                == "Failed to instantiate "@ + "HTTP"@ + " capability: "@ + cause@
            &&& step == Step::InstantiateCapability(NativeCapability::Logging) ==> text
                == "Failed to instantiate "@ + "log"@ + " capability: "@ + cause@
            &&& step == Step::InstantiateCapability(NativeCapability::FileSystem) ==> text
                == "Failed to instantiate "@ + "File System"@ + " capability: "@ + cause@
            &&& step == Step::AddCapability(NativeCapability::Http) ==> text == "Failed to add "@
                + "HTTP"@ + " capability: "@ + cause@
            &&& step == Step::AddCapability(NativeCapability::Logging) ==> text == "Failed to add "@
                + "log"@ + " capability: "@ + cause@
            &&& step == Step::AddCapability(NativeCapability::FileSystem) ==> text
                == "Failed to add "@ + "File System"@ + " capability: "@ + cause@
            &&& step is AddActor ==> text == "Error adding actor: "@ + cause@
            &&& step is BindActor ==> text == "Error configuring capabilities for module: "@
                + cause@
            &&& step is RemoveActor ==> text == "unable to remove actor: "@ + cause@
            &&& step is RemoveCapability ==> text == "unable to remove volume capability: "@
                + cause@
            &&& step is CreateDirectory || step is StopPod || step is ReplaceStatus
                || step is DeletePod ==> text == cause@
        }),
{
    reveal_strlit("");
    let text = (ProviderError::StepFailed { step, cause }).text();
    if step is CreateDirectory || step is StopPod || step is ReplaceStatus || step is DeletePod {
        assert(text =~= cause@);
    }
}

/// The view of a capability has its name, its binding and its whole environment.
pub proof fn law_capability_view_is_whole(capability: Capability)
    ensures
        capability@.name == capability.name@,
        capability.binding is None ==> capability@.binding is None,
        capability.binding matches Some(binding) ==> capability@.binding == Some(binding@),
        capability@.env.dom() == capability.env@.dom(),
        forall|key: Seq<char>| #[trigger]
            capability.env@.contains_key(key) ==> capability@.env[key] == capability.env@[key]@,
{
}

/// The view of a command has all that the command holds, and is of the same kind.
pub proof fn law_command_view_is_whole(command: Command)
    ensures
        command matches Command::CreateDirectory { name } ==> command@
            == (CommandView::CreateDirectory { name: name@ }) && command@.step()
            == Step::CreateDirectory,
        command matches Command::InstantiateCapability { native, binding } ==> {
            &&& command@ matches CommandView::InstantiateCapability {
                native: native_seen,
                binding: binding_seen,
            }
            &&& native_seen == native
            &&& binding is None ==> binding_seen is None
            &&& binding matches Some(text) ==> binding_seen == Some(text@)
            &&& command@.step() == Step::InstantiateCapability(native)
        },
        command matches Command::AddCapability { native } ==> command@
            == (CommandView::AddCapability { native }) && command@.step() == Step::AddCapability(
            native,
        ),
        command is AddActor ==> command@ is AddActor && command@.step() == Step::AddActor,
        command matches Command::BindActor { key, capability } ==> command@
            == (CommandView::BindActor { key: key@, capability: capability@ }) && command@.step()
            == Step::BindActor,
        command matches Command::RemoveActor { key } ==> command@ == (CommandView::RemoveActor {
            key: key@,
        }) && command@.step() == Step::RemoveActor,
        command matches Command::RemoveCapability { name, binding } ==> {
            &&& command@ matches CommandView::RemoveCapability {
                name: name_seen,
                binding: binding_seen,
            }
            &&& name_seen == name@
            &&& binding is None ==> binding_seen is None
            &&& binding matches Some(text) ==> binding_seen == Some(text@)
            &&& command@.step() == Step::RemoveCapability
        },
        command is StopPod ==> command@ is StopPod && command@.step() == Step::StopPod,
        command matches Command::ReplaceStatus { namespace, pod_name, status } ==> command@
            == (CommandView::ReplaceStatus {
            namespace: namespace@,
            pod_name: pod_name@,
            status: status@,
        }) && command@.step() == Step::ReplaceStatus,
        command matches Command::DeletePod { namespace, pod_name, grace_period_seconds }
            ==> command@ == (CommandView::DeletePod {
            namespace: namespace@,
            pod_name: pod_name@,
            grace_period_seconds,
        }) && command@.step() == Step::DeletePod,
{
}

/// The views of commands and of capabilities keep their number and their order.
pub proof fn law_views_keep_order(commands: Seq<Command>, capabilities: Seq<Capability>)
    ensures
        crate::script::command_views(commands).len() == commands.len(),
        forall|i: int|
            0 <= i < commands.len() ==> #[trigger] crate::script::command_views(commands)[i]
                == commands[i]@,
        crate::capability::capability_views(capabilities).len() == capabilities.len(),
        forall|i: int|
            0 <= i < capabilities.len() ==> #[trigger] crate::capability::capability_views(
                capabilities,
            )[i] == capabilities[i]@,
{
}

} // verus!
