use vstd::prelude::*;

use crate::service::Service;

verus! {

// ---------------------------------------------------------------------------
// Character classes
// ---------------------------------------------------------------------------

/// The Unicode `Emoji` property of one code point, as the regex class
/// `\p{Emoji}` tests it.
pub uninterp spec fn emoji_property(c: char) -> bool;

/// The Unicode `White_Space` property, which `str::trim` removes.
pub open spec fn is_white_space(c: char) -> bool {
    let u = c as u32;
    (0x9 <= u && u <= 0xd) || u == 0x20 || u == 0x85 || u == 0xa0 || u == 0x1680 || (0x2000 <= u
        && u <= 0x200a) || u == 0x2028 || u == 0x2029 || u == 0x202f || u == 0x205f || u == 0x3000
}

/// A code point that the icon extractor takes. No white-space code point has
/// the `Emoji` property; the conjunct says so for the proofs.
pub open spec fn is_emoji(c: char) -> bool {
    emoji_property(c) && !is_white_space(c)
}

/// The two emoji variation selectors, U+FE0E and U+FE0F.
pub open spec fn is_variation_selector(c: char) -> bool {
    c == '\u{FE0E}' || c == '\u{FE0F}'
}

/// Code points that are dropped from a display name to form a list's name.
pub open spec fn is_icon_char(c: char) -> bool {
    is_emoji(c) || is_variation_selector(c)
}

/// The first emoji of `s`, if any.
pub open spec fn first_emoji(s: Seq<char>) -> Option<char>
    decreases s.len(),
{
    if s.len() == 0 {
        None
    } else if is_emoji(s[0]) {
        Some(s[0])
    } else {
        first_emoji(s.drop_first())
    }
}

/// The icon that a display name carries: its first emoji, as a one-character string.
pub open spec fn icon_of(s: Seq<char>) -> Option<Seq<char>> {
    match first_emoji(s) {
        Some(c) => Some(seq![c]),
        None => None,
    }
}

/// `s` without any emoji or variation selector.
pub open spec fn strip_icon_chars(s: Seq<char>) -> Seq<char> {
    s.filter(|c: char| !is_icon_char(c))
}

pub open spec fn trim_start(s: Seq<char>) -> Seq<char>
    decreases s.len(),
{
    if s.len() > 0 && is_white_space(s[0]) {
        trim_start(s.drop_first())
    } else {
        s
    }
}

pub open spec fn trim_end(s: Seq<char>) -> Seq<char>
    decreases s.len(),
{
    if s.len() > 0 && is_white_space(s.last()) {
        trim_end(s.drop_last())
    } else {
        s
    }
}

/// `s` without leading and trailing white space.
pub open spec fn trim(s: Seq<char>) -> Seq<char> {
    trim_end(trim_start(s))
}

/// `s` neither starts nor ends with white space.
pub open spec fn is_trimmed(s: Seq<char>) -> bool {
    s.len() == 0 || (!is_white_space(s[0]) && !is_white_space(s.last()))
}

/// The name that a display name carries.
pub open spec fn name_of(s: Seq<char>) -> Seq<char> {
    trim(strip_icon_chars(s))
}

/// The contents of an optional string.
pub open spec fn opt_view(o: Option<String>) -> Option<Seq<char>> {
    match o {
        Some(s) => Some(s@),
        None => None,
    }
}

pub open spec fn is_lower_hex(c: char) -> bool {
    ('0' <= c && c <= '9') || ('a' <= c && c <= 'f')
}

/// A version-4 UUID in hyphenated lower-case hex, `xxxxxxxx-xxxx-4xxx-xxxx-xxxxxxxxxxxx`.
pub open spec fn is_uuid_v4_text(s: Seq<char>) -> bool {
    &&& s.len() == 36
    &&& s[14] == '4'
    &&& forall|i: int|
        0 <= i < 36 ==> if i == 8 || i == 13 || i == 18 || i == 23 {
            s[i] == '-'
        } else {
            is_lower_hex(#[trigger] s[i])
        }
}

// ---------------------------------------------------------------------------
// Outside calls
// ---------------------------------------------------------------------------

/// Relies on regex::Regex::find with the class `\p{Emoji}`: the leftmost
/// match of a one-code-point class is the first code point in the class.
#[verifier::external_body]
fn find_first_emoji(s: &str) -> (r: Option<String>)
    ensures
        opt_view(r) == icon_of(s@),
        r matches Some(e) ==> e@.len() == 1 && emoji_property(e@[0]),
{
    let re = regex::Regex::new(r"\p{Emoji}").unwrap();
    re.find(s).map(|m| m.as_str().to_string())
}

/// Relies on regex::Regex::replace_all with the class
/// `[\p{Emoji}\u{FE0E}\u{FE0F}]` and an empty replacement: every code point in
/// the class is dropped, the others are kept in order.
#[verifier::external_body]
fn drop_icon_chars(s: &str) -> (r: String)
    ensures
        r@ == strip_icon_chars(s@),
{
    let re = regex::Regex::new(r"([\p{Emoji}\u{FE0E}\u{FE0F}])").unwrap();
    re.replace_all(s, "").into_owned()
}

/// Relies on str::trim: leading and trailing `White_Space` code points are removed.
#[verifier::external_body]
fn trim_white_space(s: &str) -> (r: String)
    ensures
        r@ == trim(s@),
{
    s.trim().to_string()
}

/// Relies on uuid::Uuid::new_v4 and the `Display` of `Uuid`: a random
/// version-4 id, written in hyphenated lower-case hex.
#[verifier::external_body]
fn new_uuid_v4() -> (r: String)
    ensures
        is_uuid_v4_text(r@),
{
    uuid::Uuid::new_v4().to_string()
}

// ---------------------------------------------------------------------------
// Lists
// ---------------------------------------------------------------------------

/// The canonical list record.
#[derive(Debug)]
pub struct List {
    pub id: String,
    pub name: String,
    pub description: String,
    pub icon: Option<String>,
    pub service: Service,
}

/// The abstract value of a `List`.
pub struct ListModel {
    pub id: Seq<char>,
    pub name: Seq<char>,
    pub description: Seq<char>,
    pub icon: Option<Seq<char>>,
    pub service: Service,
}

impl View for List {
    type V = ListModel;

    open spec fn view(&self) -> ListModel {
        ListModel {
            id: self.id@,
            name: self.name@,
            description: self.description@,
            icon: opt_view(self.icon),
            service: self.service,
        }
    }
}

/// A provider-native list: the icon rides inside the display name.
#[derive(Debug)]
pub struct ToDoTaskList {
    pub id: String,
    pub display_name: String,
    pub is_owner: bool,
    pub is_shared: bool,
}

/// The icon that a list authored locally starts with: U+270D U+FE0F.
pub open spec fn default_icon() -> Seq<char> {
    seq!['\u{270D}', '\u{FE0F}']
}

/// The display name that carries `icon` and `name`: the icon (or nothing), a
/// space, the name.
pub open spec fn display_name_of(icon: Option<Seq<char>>, name: Seq<char>) -> Seq<char> {
    match icon {
        Some(i) => i + seq![' '] + name,
        None => seq![' '] + name,
    }
}

/// A copy of an optional string with the same contents.
pub fn clone_opt_string(o: &Option<String>) -> (r: Option<String>)
    ensures
        opt_view(r) == opt_view(*o),
{
    match o {
        Some(s) => Some(s.clone()),
        None => None,
    }
}

impl List {
    /// A list authored locally: a fresh random id, the default icon, no description.
    pub fn new(name: &str, service: Service) -> (r: List)
        ensures
            r.name@ == name@,
            r.service == service,
            r.description@.len() == 0,
            opt_view(r.icon) == Some(default_icon()),
            is_uuid_v4_text(r.id@),
    {
        let icon = String::from_str("\u{270D}\u{FE0F}");
        proof {
            reveal_strlit("\u{270D}\u{FE0F}");
        }
        List {
            id: new_uuid_v4(),
            name: String::from_str(name),
            service,
            description: String::new(),
            icon: Some(icon),
        }
    }
}

impl Clone for List {
    fn clone(&self) -> (r: List)
        ensures
            r@ == self@,
    {
        List {
            id: self.id.clone(),
            name: self.name.clone(),
            description: self.description.clone(),
            icon: clone_opt_string(&self.icon),
            service: self.service,
        }
    }
}

/// The icon a display name carries: its first emoji, if it has one.
pub fn extract_emoji(s: &str) -> (r: Option<String>)
    ensures
        opt_view(r) == icon_of(s@),
{
    find_first_emoji(s)
}

/// The name a display name carries: every emoji and variation selector
/// dropped, then surrounding white space trimmed.
pub fn remove_emoji(s: &str) -> (r: String)
    ensures
        r@ == name_of(s@),
{
    let stripped = drop_icon_chars(s);
    trim_white_space(stripped.as_str())
}

/// The canonical list that a native Microsoft list with this id and display name stands for.
pub open spec fn normalized(id: Seq<char>, display: Seq<char>) -> ListModel {
    ListModel {
        id,
        name: name_of(display),
        description: Seq::empty(),
        icon: icon_of(display),
        service: Service::Microsoft,
    }
}

/// The canonical form of a provider-native list of the Microsoft service.
pub fn normalize(native: ToDoTaskList) -> (r: List)
    ensures
        r@ == normalized(native.id@, native.display_name@),
{
    let name = remove_emoji(native.display_name.as_str());
    let icon = extract_emoji(native.display_name.as_str());
    let r = List { id: native.id, name, description: String::new(), icon, service: Service::Microsoft };
    assert(r@.description =~= Seq::<char>::empty());
    r
}

/// The provider-native form of a list: the icon is written into the display name.
pub fn denormalize(list: List) -> (r: ToDoTaskList)
    ensures
        r.id@ == list.id@,
        r.display_name@ == display_name_of(opt_view(list.icon), list.name@),
        r.is_owner,
        !r.is_shared,
{
    let mut display_name = match list.icon {
        Some(i) => i,
        None => String::new(),
    };
    display_name.append(" ");
    display_name.append(list.name.as_str());
    proof {
        reveal_strlit(" ");
        assert(display_name@ =~= display_name_of(opt_view(list.icon), list.name@));
    }
    ToDoTaskList { id: list.id, display_name, is_owner: true, is_shared: false }
}

// ---------------------------------------------------------------------------
// Round trip
// ---------------------------------------------------------------------------

/// A list whose native form reads back to the same list: a Microsoft list
/// with no description, an icon that is one emoji (or none), and a name that
/// holds no emoji, no variation selector and no surrounding white space.
pub open spec fn round_trips(l: ListModel) -> bool {
    &&& l.service == Service::Microsoft
    &&& l.description.len() == 0
    &&& match l.icon {
        Some(i) => i.len() == 1 && is_emoji(i[0]),
        None => true,
    }
    &&& forall|k: int| 0 <= k < l.name.len() ==> !is_icon_char(#[trigger] l.name[k])
    &&& is_trimmed(l.name)
}

proof fn lemma_no_emoji_first(s: Seq<char>)
    requires
        forall|k: int| 0 <= k < s.len() ==> !is_icon_char(#[trigger] s[k]),
    ensures
        first_emoji(s) is None,
    decreases s.len(),
{
    if s.len() > 0 {
        assert(!is_icon_char(s[0]));
        let t = s.drop_first();
        assert forall|k: int| 0 <= k < t.len() implies !is_icon_char(#[trigger] t[k]) by {
            assert(t[k] == s[k + 1]);
        }
        lemma_no_emoji_first(t);
    }
}

proof fn lemma_filter_keeps_all(s: Seq<char>)
    requires
        forall|k: int| 0 <= k < s.len() ==> !is_icon_char(#[trigger] s[k]),
    ensures
        strip_icon_chars(s) == s,
    decreases s.len(),
{
    reveal(Seq::filter);
    if s.len() > 0 {
        let t = s.drop_last();
        assert forall|k: int| 0 <= k < t.len() implies !is_icon_char(#[trigger] t[k]) by {
            assert(t[k] == s[k]);
        }
        lemma_filter_keeps_all(t);
        assert(!is_icon_char(s.last()));
        assert(t.push(s.last()) =~= s);
    }
}

proof fn lemma_trim_trimmed(s: Seq<char>)
    requires
        is_trimmed(s),
    ensures
        trim(seq![' '] + s) == s,
{
    let t = seq![' '] + s;
    assert(t[0] == ' ');
    assert(is_white_space(' '));
    assert(t.drop_first() =~= s);
    assert(trim_start(t) == trim_start(s));
    assert(trim_start(s) == s);
    assert(trim_end(s) == s);
}

/// Normalising the native form of a list gives the list back, for every list
/// whose name carries no emoji-like character (see `round_trips`).
pub proof fn lemma_normalize_denormalize(l: ListModel, native_id: Seq<char>, display: Seq<char>)
    requires
        round_trips(l),
        native_id == l.id,
        display == display_name_of(l.icon, l.name),
    ensures
        normalized(native_id, display) == l,
{
    let sp = seq![' '];
    lemma_no_emoji_first(l.name);
    lemma_filter_keeps_all(l.name);
    assert(!is_icon_char(' ')) by {
        assert(is_white_space(' '));
    }
    assert(strip_icon_chars(sp) =~= sp) by {
        reveal(Seq::filter);
        assert(sp.drop_last() =~= Seq::<char>::empty());
    }
    Seq::filter_distributes_over_add(sp, l.name, |c: char| !is_icon_char(c));
    match l.icon {
        Some(i) => {
            assert(display == i + (sp + l.name)) by {
                assert(i + sp + l.name =~= i + (sp + l.name));
            }
            assert(display[0] == i[0]);
            assert(first_emoji(display) == Some(i[0]));
            assert(seq![i[0]] =~= i);
            assert(strip_icon_chars(i) =~= Seq::<char>::empty()) by {
                reveal(Seq::filter);
                assert(i.drop_last() =~= Seq::<char>::empty());
            }
            Seq::filter_distributes_over_add(i, sp + l.name, |c: char| !is_icon_char(c));
            assert(strip_icon_chars(display) =~= sp + l.name);
        },
        None => {
            assert(display[0] == ' ');
            assert(display.drop_first() =~= l.name);
            assert(strip_icon_chars(display) =~= sp + l.name);
        },
    }
    lemma_trim_trimmed(l.name);
    assert(normalized(native_id, display).description =~= l.description);
}

} // verus!
