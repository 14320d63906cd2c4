use vstd::prelude::*;

verus! {

/// A JSON document as serde_json holds it.
#[verifier::external_type_specification]
#[verifier::external_body]
pub struct ExValue(serde_json::Value);

/// The error of serde_json.
#[verifier::external_type_specification]
#[verifier::external_body]
pub struct ExError(serde_json::Error);

/// A JSON document as a tree. An object is the list of its members; where a
/// key stands twice, the later member counts.
#[derive(Debug)]
pub enum JsonValue {
    Null,
    Bool(bool),
    /// A number, as it is written.
    Number(String),
    Text(String),
    Array(Vec<JsonValue>),
    Object(Vec<(String, JsonValue)>),
}

/// The mathematical value of a [`JsonValue`].
pub ghost enum JsonView {
    Null,
    Bool(bool),
    Number(Seq<char>),
    Text(Seq<char>),
    Array(Seq<JsonView>),
    Object(Seq<(Seq<char>, JsonView)>),
}

impl JsonValue {
    /// The tree that the value stands for.
    pub open spec fn tree(self) -> JsonView
        decreases self,
    {
        match self {
            JsonValue::Null => JsonView::Null,
            JsonValue::Bool(value) => JsonView::Bool(value),
            JsonValue::Number(number) => JsonView::Number(number@),
            JsonValue::Text(text) => JsonView::Text(text@),
            JsonValue::Array(items) => JsonView::Array(
                Seq::new(
                    items@.len(),
                    |i: int|
                        if 0 <= i < items@.len() {
                            items@[i].tree()
                        } else {
                            JsonView::Null
                        },
                ),
            ),
            JsonValue::Object(members) => JsonView::Object(
                Seq::new(
                    members@.len(),
                    |i: int|
                        if 0 <= i < members@.len() {
                            (members@[i].0@, members@[i].1.tree())
                        } else {
                            (Seq::empty(), JsonView::Null)
                        },
                ),
            ),
        }
    }
}

impl View for JsonValue {
    type V = JsonView;

    open spec fn view(&self) -> JsonView {
        self.tree()
    }
}

/// The members of an object, each with the value of its key and its tree.
pub open spec fn members_of(members: Seq<(String, JsonValue)>) -> Seq<(Seq<char>, JsonView)> {
    Seq::new(members.len(), |i: int| (members[i].0@, members[i].1@))
}

/// The position of the member that counts for a key: the last with that key.
pub open spec fn member_position(members: Seq<(Seq<char>, JsonView)>, key: Seq<char>) -> Option<int>
    decreases members.len(),
{
    if members.len() == 0 {
        None
    } else if members.last().0 == key {
        Some(members.len() - 1)
    } else {
        member_position(members.drop_last(), key)
    }
}

/// The members after `key` has been given `value`: the member that counts
/// for the key holds the value, or a new member is added at the end.
pub open spec fn with_member(
    members: Seq<(Seq<char>, JsonView)>,
    key: Seq<char>,
    value: JsonView,
) -> Seq<(Seq<char>, JsonView)> {
    match member_position(members, key) {
        Some(position) => members.update(position, (key, value)),
        None => members.push((key, value)),
    }
}

/// The font entry of the terminal's defaults: `{"face": font}`.
pub open spec fn font_entry(font: Seq<char>) -> JsonView {
    JsonView::Object(seq![("face"@, JsonView::Text(font))])
}

/// The defaults of a terminal that had none: `{"font": {"face": font}}`.
pub open spec fn defaults_entry(font: Seq<char>) -> JsonView {
    JsonView::Object(seq![("font"@, font_entry(font))])
}

/// The defaults with the font set. Defaults that are no object stay as they
/// are.
pub open spec fn defaults_with_font(defaults: JsonView, font: Seq<char>) -> JsonView {
    match defaults {
        JsonView::Object(members) => JsonView::Object(with_member(members, "font"@, font_entry(font))),
        _ => defaults,
    }
}

/// The profiles with the font set in their defaults, which are added where
/// there are none. Profiles that are no object stay as they are.
pub open spec fn profiles_with_font(profiles: JsonView, font: Seq<char>) -> JsonView {
    match profiles {
        JsonView::Object(members) => match member_position(members, "defaults"@) {
            Some(position) => JsonView::Object(
                members.update(
                    position,
                    ("defaults"@, defaults_with_font(members[position].1, font)),
                ),
            ),
            None => JsonView::Object(members.push(("defaults"@, defaults_entry(font)))),
        },
        _ => profiles,
    }
}

/// The settings with the font set in the defaults of the profiles. Settings
/// that are no object, or have no profiles, stay as they are.
pub open spec fn font_applied(settings: JsonView, font: Seq<char>) -> JsonView {
    match settings {
        JsonView::Object(members) => match member_position(members, "profiles"@) {
            Some(position) => JsonView::Object(
                members.update(
                    position,
                    ("profiles"@, profiles_with_font(members[position].1, font)),
                ),
            ),
            None => settings,
        },
        _ => settings,
    }
}

/// The member that counts for a key has that key, and no later member has.
pub proof fn lemma_member_position(members: Seq<(Seq<char>, JsonView)>, key: Seq<char>)
    ensures
        match member_position(members, key) {
            Some(position) => {
                &&& 0 <= position < members.len()
                &&& members[position].0 == key
                &&& forall|later: int|
                    position < later < members.len() ==> (#[trigger] members[later]).0 != key
            },
            None => forall|any: int| 0 <= any < members.len() ==> (#[trigger] members[any]).0 != key,
        },
    decreases members.len(),
{
    if members.len() > 0 && members.last().0 != key {
        let front = members.drop_last();
        lemma_member_position(front, key);
        match member_position(front, key) {
            Some(position) => {
                assert forall|later: int| position < later < members.len() implies (
                #[trigger] members[later]).0 != key by {
                    if later < front.len() {
                        assert(front[later] == members[later]);
                    }
                }
            },
            None => {
                assert forall|any: int| 0 <= any < members.len() implies (
                #[trigger] members[any]).0 != key by {
                    if any < front.len() {
                        assert(front[any] == members[any]);
                    }
                }
            },
        }
    }
}

/// The tree of an object is the list of its members' values.
pub proof fn lemma_object_view(members: Vec<(String, JsonValue)>)
    ensures
        JsonValue::Object(members)@ == JsonView::Object(members_of(members@)),
{
    let object = JsonValue::Object(members);
    reveal_with_fuel(JsonValue::tree, 2);
    assert(object@ is Object);
    let shown = object@->Object_0;
    assert(shown.len() == members@.len());
    assert(shown =~= members_of(members@));
}

/// The position of the member that counts for a key.
pub fn find_member(members: &Vec<(String, JsonValue)>, key: &str) -> (found: Option<usize>)
    ensures
        match found {
            Some(position) => {
                &&& member_position(members_of(members@), key@) == Some(position as int)
                &&& position < members@.len()
                &&& members@[position as int].0@ == key@
            },
            None => member_position(members_of(members@), key@) is None,
        },
{
    let wanted = String::from_str(key);
    let ghost all = members_of(members@);
    let mut remaining: usize = members.len();
    assert(all.take(remaining as int) =~= all);
    while remaining > 0
        invariant
            remaining <= members@.len(),
            all == members_of(members@),
            wanted@ == key@,
            member_position(all, key@) == member_position(all.take(remaining as int), key@),
        decreases remaining,
    {
        let position: usize = remaining - 1;
        proof {
            let front = all.take(remaining as int);
            assert(front.last() == all[position as int]);
            assert(front.drop_last() =~= all.take(position as int));
        }
        if members[position].0 == wanted {
            proof {
                lemma_member_position(all, key@);
            }
            return Some(position);
        }
        remaining = position;
    }
    assert(all.take(0).len() == 0);
    None
}

/// The object `{key: value}`.
pub fn single_member(key: &str, value: JsonValue) -> (object: JsonValue)
    ensures
        object@ == JsonView::Object(seq![(key@, value@)]),
{
    let mut members: Vec<(String, JsonValue)> = Vec::new();
    members.push((String::from_str(key), value));
    proof {
        lemma_object_view(members);
        assert(members_of(members@) =~= seq![(key@, value@)]);
    }
    JsonValue::Object(members)
}

/// Replaces the tree of the member at a position.
fn replace_member(members: &mut Vec<(String, JsonValue)>, position: usize, value: JsonValue)
    requires
        position < old(members)@.len(),
    ensures
        members_of(final(members)@) == members_of(old(members)@).update(
            position as int,
            (old(members)@[position as int].0@, value@),
        ),
{
    let (key, _) = members.remove(position);
    members.insert(position, (key, value));
    assert(members_of(members@) =~= members_of(old(members)@).update(
        position as int,
        (old(members)@[position as int].0@, value@),
    ));
}

/// Takes the tree of the member at a position, leaving `null` in its place.
fn take_member(members: &mut Vec<(String, JsonValue)>, position: usize) -> (value: JsonValue)
    requires
        position < old(members)@.len(),
    ensures
        value@ == members_of(old(members)@)[position as int].1,
        final(members)@.len() == old(members)@.len(),
        members_of(final(members)@) == members_of(old(members)@).update(
            position as int,
            (old(members)@[position as int].0@, JsonView::Null),
        ),
        final(members)@[position as int].0@ == old(members)@[position as int].0@,
{
    let (key, value) = members.remove(position);
    members.insert(position, (key, JsonValue::Null));
    assert(members_of(members@) =~= members_of(old(members)@).update(
        position as int,
        (old(members)@[position as int].0@, JsonView::Null),
    ));
    value
}

/// The defaults with the font set.
pub fn set_defaults_font(defaults: JsonValue, font_name: &str) -> (updated: JsonValue)
    ensures
        updated@ == defaults_with_font(defaults@, font_name@),
{
    match defaults {
        JsonValue::Object(members) => {
            let mut members = members;
            proof {
                lemma_object_view(members);
            }
            let entry = single_member("face", JsonValue::Text(String::from_str(font_name)));
            match find_member(&members, "font") {
                Some(position) => {
                    replace_member(&mut members, position, entry);
                },
                None => {
                    let ghost before = members_of(members@);
                    members.push((String::from_str("font"), entry));
                    assert(members_of(members@) =~= before.push(("font"@, font_entry(font_name@))));
                },
            }
            proof {
                lemma_object_view(members);
            }
            JsonValue::Object(members)
        },
        other => other,
    }
}

/// The profiles with the font set in their defaults.
pub fn set_profiles_font(profiles: JsonValue, font_name: &str) -> (updated: JsonValue)
    ensures
        updated@ == profiles_with_font(profiles@, font_name@),
{
    match profiles {
        JsonValue::Object(members) => {
            let mut members = members;
            let ghost before = members_of(members@);
            proof {
                lemma_object_view(members);
            }
            match find_member(&members, "defaults") {
                Some(position) => {
                    let defaults = take_member(&mut members, position);
                    let updated = set_defaults_font(defaults, font_name);
                    replace_member(&mut members, position, updated);
                    assert(members_of(members@) =~= before.update(
                        position as int,
                        ("defaults"@, defaults_with_font(before[position as int].1, font_name@)),
                    ));
                },
                None => {
                    let font = single_member("face", JsonValue::Text(String::from_str(font_name)));
                    let entry = single_member("font", font);
                    members.push((String::from_str("defaults"), entry));
                    assert(members_of(members@) =~= before.push(
                        ("defaults"@, defaults_entry(font_name@)),
                    ));
                },
            }
            proof {
                lemma_object_view(members);
            }
            JsonValue::Object(members)
        },
        other => other,
    }
}

/// The settings with the font set in the defaults of the profiles.
pub fn with_terminal_font(settings: JsonValue, font_name: &str) -> (updated: JsonValue)
    ensures
        updated@ == font_applied(settings@, font_name@),
{
    match settings {
        JsonValue::Object(members) => {
            let mut members = members;
            let ghost before = members_of(members@);
            proof {
                lemma_object_view(members);
            }
            match find_member(&members, "profiles") {
                Some(position) => {
                    let profiles = take_member(&mut members, position);
                    let updated = set_profiles_font(profiles, font_name);
                    replace_member(&mut members, position, updated);
                    assert(members_of(members@) =~= before.update(
                        position as int,
                        ("profiles"@, profiles_with_font(before[position as int].1, font_name@)),
                    ));
                    proof {
                        lemma_object_view(members);
                    }
                    JsonValue::Object(members)
                },
                None => JsonValue::Object(members),
            }
        },
        other => other,
    }
}

/// The tree that serde_json reads from a text, where it reads one: what
/// `serde_json::from_str` returns for a `serde_json::Value`.
pub uninterp spec fn parsed_json(text: Seq<char>) -> Option<JsonView>;

/// The tree that a value of serde_json holds: its members in the order in
/// which the value's maps are walked, each number as it is displayed.
pub uninterp spec fn json_tree(value: serde_json::Value) -> JsonView;

/// The tree that the value of serde_json holds which is built from a tree,
/// where one can be built: none where a number is not written as JSON has it.
pub uninterp spec fn stored_tree(tree: JsonView) -> Option<JsonView>;

/// The text that serde_json prints for the value that holds a tree, indented
/// by two spaces, where it prints one: what `serde_json::to_string_pretty`
/// returns.
pub uninterp spec fn pretty_json(tree: JsonView) -> Option<Seq<char>>;

/// `serde_json::from_str`, for a `serde_json::Value`: the value that the text
/// stands for, or the error where the text is no JSON document.
#[verifier::external_body]
pub(crate) fn parse(text: &str) -> (result: Result<serde_json::Value, serde_json::Error>)
    ensures
        match result {
            Ok(value) => parsed_json(text@) == Some(json_tree(value)),
            Err(_) => parsed_json(text@) is None,
        },
{
    serde_json::from_str::<serde_json::Value>(text)
}

/// The tree of a `serde_json::Value`, variant for variant.
#[verifier::external_body]
pub(crate) fn tree_of(value: &serde_json::Value) -> (tree: JsonValue)
    ensures
        tree@ == json_tree(*value),
{
    match value {
        serde_json::Value::Null => JsonValue::Null,
        serde_json::Value::Bool(flag) => JsonValue::Bool(*flag),
        serde_json::Value::Number(number) => JsonValue::Number(number.to_string()),
        serde_json::Value::String(text) => JsonValue::Text(text.clone()),
        serde_json::Value::Array(items) => JsonValue::Array(items.iter().map(tree_of).collect()),
        serde_json::Value::Object(map) => JsonValue::Object(
            map.iter().map(|(key, member)| (key.clone(), tree_of(member))).collect(),
        ),
    }
}

/// The `serde_json::Value` of a tree, variant for variant: the members of an
/// object are inserted into its map in their order. There is none where a
/// number is not written as JSON has it.
#[verifier::external_body]
pub(crate) fn value_of(tree: &JsonValue) -> (value: Option<serde_json::Value>)
    ensures
        match value {
            Some(built) => stored_tree(tree@) == Some(json_tree(built)),
            None => stored_tree(tree@) is None,
        },
{
    Some(match tree {
        JsonValue::Null => serde_json::Value::Null,
        JsonValue::Bool(flag) => serde_json::Value::Bool(*flag),
        JsonValue::Number(number) => serde_json::Value::Number(serde_json::from_str(number).ok()?),
        JsonValue::Text(text) => serde_json::Value::String(text.clone()),
        JsonValue::Array(items) => serde_json::Value::Array(
            items.iter().map(value_of).collect::<Option<Vec<serde_json::Value>>>()?,
        ),
        JsonValue::Object(members) => serde_json::Value::Object(
            members.iter().map(|(key, member)| Some((key.clone(), value_of(member)?))).collect::<Option<serde_json::Map<String, serde_json::Value>>>()?,
        ),
    })
}

/// `serde_json::to_string_pretty`: the value as indented text, or the error
/// of the serializer. Whether there is a text, and which, depends on the value
/// alone.
#[verifier::external_body]
pub(crate) fn pretty(value: &serde_json::Value) -> (result: Result<String, serde_json::Error>)
    ensures
        match result {
            Ok(text) => pretty_json(json_tree(*value)) == Some(text@),
            Err(_) => pretty_json(json_tree(*value)) is None,
        },
{
    serde_json::to_string_pretty(value)
}

/// Why the font of a terminal could not be set.
#[derive(Debug, Clone, Copy, PartialEq, Eq)]
pub enum TerminalConfigError {
    /// A settings file could not be read.
    Read,
    /// A settings file is no JSON document.
    Parse,
    /// The new settings could not be turned into text.
    Serialize,
    /// A settings file could not be written.
    Write,
    /// No settings file exists.
    NotFound,
}

/// The text of an error.
pub open spec fn error_text(error: TerminalConfigError) -> Seq<char> {
    match error {
        TerminalConfigError::Read => "Failed to read settings.json"@,
        TerminalConfigError::Parse => "Failed to parse settings.json"@,
        TerminalConfigError::Serialize => "Failed to serialize JSON"@,
        TerminalConfigError::Write => "Failed to write settings.json"@,
        TerminalConfigError::NotFound => "Windows Terminal settings.json not found"@,
    }
}

impl TerminalConfigError {
    /// The text of the error.
    pub fn message(&self) -> (text: String)
        ensures
            text@ == error_text(*self),
    {
        match self {
            TerminalConfigError::Read => String::from_str("Failed to read settings.json"),
            TerminalConfigError::Parse => String::from_str("Failed to parse settings.json"),
            TerminalConfigError::Serialize => String::from_str("Failed to serialize JSON"),
            TerminalConfigError::Write => String::from_str("Failed to write settings.json"),
            TerminalConfigError::NotFound => String::from_str(
                "Windows Terminal settings.json not found",
            ),
        }
    }
}

/// The tree of a settings text, or nothing where the text is no JSON
/// document.
pub fn read_settings(content: &str) -> (settings: Option<JsonValue>)
    ensures
        match settings {
            Some(tree) => parsed_json(content@) == Some(tree@),
            None => parsed_json(content@) is None,
        },
{
    match parse(content) {
        Ok(value) => Some(tree_of(&value)),
        Err(_) => None,
    }
}

/// The text of a tree, indented, where there is one: the text that
/// serde_json prints for the value that is built from the tree.
pub open spec fn printed_settings(settings: JsonView) -> Option<Seq<char>> {
    match stored_tree(settings) {
        Some(stored) => pretty_json(stored),
        None => None,
    }
}

/// What becomes of the text of a settings file: the settings it holds, with
/// the font set in the defaults of the profiles, printed anew. A text that is
/// no JSON document is a parse error; settings that cannot be printed are a
/// serialization error.
pub open spec fn settings_update(content: Seq<char>, font: Seq<char>) -> Result<
    Seq<char>,
    TerminalConfigError,
> {
    match parsed_json(content) {
        Some(settings) => match printed_settings(font_applied(settings, font)) {
            Some(text) => Ok(text),
            None => Err(TerminalConfigError::Serialize),
        },
        None => Err(TerminalConfigError::Parse),
    }
}

/// The text that a printing came back with, or nothing where it failed.
pub fn printed_text(printing: Result<String, serde_json::Error>) -> (text: Option<String>)
    ensures
        match printing {
            Ok(printed) => text == Some(printed),
            Err(_) => text is None,
        },
{
    match printing {
        Ok(printed) => Some(printed),
        Err(_) => None,
    }
}

/// The text of settings, indented. There is none where a number of the tree
/// is not written as JSON has it, or where the serializer fails.
pub fn write_settings(settings: &JsonValue) -> (text: Option<String>)
    ensures
        match text {
            Some(printed) => printed_settings(settings@) == Some(printed@),
            None => printed_settings(settings@) is None,
        },
{
    match value_of(settings) {
        Some(value) => printed_text(pretty(&value)),
        None => None,
    }
}

/// The new text of a settings file: the settings it holds, with the font set
/// in the defaults of the profiles, printed anew. A text that is no JSON
/// document is a parse error; settings that cannot be printed are a
/// serialization error.
pub fn updated_settings(content: &str, font_name: &str) -> (result: Result<
    String,
    TerminalConfigError,
>)
    ensures
        match settings_update(content@, font_name@) {
            Ok(text) => result is Ok && result->Ok_0@ == text,
            Err(error) => result == Err::<String, TerminalConfigError>(error),
        },
{
    match read_settings(content) {
        Some(settings) => {
            let updated = with_terminal_font(settings, font_name);
            match write_settings(&updated) {
                Some(text) => Ok(text),
                None => Err(TerminalConfigError::Serialize),
            }
        },
        None => Err(TerminalConfigError::Parse),
    }
}

} // verus!
