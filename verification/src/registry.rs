//! What outlives a single flow: the expiration handlers of the runs that wait for
//! or hold a continued-processing task, the tasks that the system has launched,
//! and whether the launch handler is registered.

use vstd::hash_map::StringHashMap;
use vstd::prelude::*;

use crate::activity::IosAgentBackgroundExpiration;

verus! {

/// The shared state of the bridge. `H` is the type of an expiration handler.
#[verifier::reject_recursive_types(H)]
pub struct BackgroundRegistry<H> {
    /// The expiration handlers, by identifier.
    pub handlers: StringHashMap<H>,
    /// The addresses of the retained tasks, by identifier.
    pub tasks: StringHashMap<usize>,
    /// Whether the launch handler is registered.
    pub registered: bool,
}

/// The contents of a registry.
#[verifier::ext_equal]
#[verifier::reject_recursive_types(H)]
pub struct RegistryView<H> {
    pub handlers: Map<Seq<char>, H>,
    pub tasks: Map<Seq<char>, usize>,
    pub registered: bool,
}

impl<H> View for BackgroundRegistry<H> {
    type V = RegistryView<H>;

    open spec fn view(&self) -> RegistryView<H> {
        RegistryView {
            handlers: self.handlers@,
            tasks: self.tasks@,
            registered: self.registered,
        }
    }
}

impl<H> RegistryView<H> {
    /// The registry without the expiration handler of an identifier.
    pub open spec fn without_handler(self, identifier: Seq<char>) -> RegistryView<H> {
        RegistryView { handlers: self.handlers.remove(identifier), ..self }
    }
}

impl<H> BackgroundRegistry<H> {
    /// The registry of a process that has not begun any activity.
    pub fn new() -> (registry: Self)
        ensures
            registry@ == (RegistryView::<H> {
                handlers: Map::empty(),
                tasks: Map::empty(),
                registered: false,
            }),
    {
        BackgroundRegistry {
            handlers: expiration_handlers(),
            tasks: continued_processing_tasks(),
            registered: false,
        }
    }
}

/// The expiration handlers at the start: none.
pub fn expiration_handlers<H>() -> (handlers: StringHashMap<H>)
    ensures
        handlers@ == Map::<Seq<char>, H>::empty(),
{
    StringHashMap::new()
}

/// The launched tasks at the start: none.
pub fn continued_processing_tasks() -> (tasks: StringHashMap<usize>)
    ensures
        tasks@ == Map::<Seq<char>, usize>::empty(),
{
    StringHashMap::new()
}

/// Puts a handler under an identifier, in place of any that stood there.
pub fn insert_expiration_handler<H>(
    handlers: &mut StringHashMap<H>,
    identifier: &str,
    handler: H,
)
    ensures
        final(handlers)@ == old(handlers)@.insert(identifier@, handler),
{
    handlers.insert(identifier.to_string(), handler);
}

/// Takes the handler away that stands under an identifier, if there is one.
pub fn remove_expiration_handler<H>(handlers: &mut StringHashMap<H>, identifier: &str)
    ensures
        final(handlers)@ == old(handlers)@.remove(identifier@),
{
    handlers.remove(identifier);
}

/// Whether a handler stands under an identifier.
pub fn has_expiration_handler<H>(handlers: &StringHashMap<H>, identifier: &str) -> (has: bool)
    ensures
        has == handlers@.contains_key(identifier@),
{
    handlers.contains_key(identifier)
}

/// The handler that is to be invoked when the task of an identifier expires, with
/// what it is to be told, if a handler stands under the identifier.
pub fn invoke_expiration_handler<'a, H>(
    handlers: &'a StringHashMap<H>,
    identifier: &str,
    mode: &str,
) -> (invocation: Option<(&'a H, IosAgentBackgroundExpiration)>)
    ensures
        match invocation {
            Some((handler, expiration)) => {
                &&& handlers@.contains_key(identifier@)
                &&& *handler == handlers@[identifier@]
                &&& expiration.mode@ == mode@
                &&& expiration.identifier is Some
                &&& expiration.identifier->0@ == identifier@
            },
            None => !handlers@.contains_key(identifier@),
        },
{
    match handlers.get(identifier) {
        Some(handler) => Some(
            (
                handler,
                IosAgentBackgroundExpiration {
                    mode: mode.to_string(),
                    identifier: Some(identifier.to_string()),
                },
            ),
        ),
        None => None,
    }
}

/// What a map holds under a key.
pub open spec fn entry<V>(map: Map<Seq<char>, V>, key: Seq<char>) -> Option<V> {
    if map.contains_key(key) {
        Some(map[key])
    } else {
        None
    }
}

/// The address of the task that stands under an identifier.
pub(crate) fn launched_task(tasks: &StringHashMap<usize>, identifier: &str) -> (task: Option<usize>)
    ensures
        task == entry(tasks@, identifier@),
{
    match tasks.get(identifier) {
        Some(task) => Some(*task),
        None => None,
    }
}

/// Puts a retained task under an identifier, and returns the task that stood there
/// before: it is no longer held and has to be released.
pub fn retain_continued_processing_task(
    tasks: &mut StringHashMap<usize>,
    identifier: &str,
    retained: usize,
) -> (previous: Option<usize>)
    ensures
        previous == entry(old(tasks)@, identifier@),
        final(tasks)@ == old(tasks)@.insert(identifier@, retained),
{
    let previous: Option<usize> = launched_task(tasks, identifier);
    tasks.insert(identifier.to_string(), retained);
    previous
}

/// Takes the task away that stands under an identifier, and returns it: it has to be
/// completed and released.
pub fn take_continued_processing_task(
    tasks: &mut StringHashMap<usize>,
    identifier: &str,
) -> (task: Option<usize>)
    ensures
        task == entry(old(tasks)@, identifier@),
        final(tasks)@ == old(tasks)@.remove(identifier@),
{
    let task: Option<usize> = launched_task(tasks, identifier);
    tasks.remove(identifier);
    task
}

/// A registry is stated of in full, and what stands under a key is what was put there last.
pub proof fn law_contents_of_a_registry<H>(
    registry: BackgroundRegistry<H>,
    map: Map<Seq<char>, usize>,
    key: Seq<char>,
    other: Seq<char>,
    value: usize,
)
    ensures
        registry@.handlers == registry.handlers@,
        registry@.tasks == registry.tasks@,
        registry@.registered == registry.registered,
        entry(map, key) == Some(value) <==> map.contains_key(key) && map[key] == value,
        entry(map, key) is None <==> !map.contains_key(key),
        entry(map.insert(key, value), key) == Some(value),
        entry(map.remove(key), key) is None,
        other != key ==> entry(map.insert(key, value), other) == entry(map, other) && entry(
            map.remove(key),
            other,
        ) == entry(map, other),
{
}

/// Taking the handler of an identifier away leaves everything else as it is.
pub proof fn law_only_the_handler_is_taken_away<H>(
    registry: RegistryView<H>,
    identifier: Seq<char>,
    other: Seq<char>,
)
    ensures
        !registry.without_handler(identifier).handlers.contains_key(identifier),
        other != identifier ==> registry.without_handler(identifier).handlers.contains_key(other)
            == registry.handlers.contains_key(other),
        other != identifier && registry.handlers.contains_key(other) ==> registry.without_handler(
            identifier,
        ).handlers[other] == registry.handlers[other],
        registry.without_handler(identifier).tasks == registry.tasks,
        registry.without_handler(identifier).registered == registry.registered,
{
}

} // verus!
