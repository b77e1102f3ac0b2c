use vstd::prelude::*;
use vstd::string::StringExecFns;

verus! {

/// How urgently the receiving push client should surface a notification.
#[derive(Clone, Copy, Debug, PartialEq, Eq, Structural)]
pub enum BarkNotificationLevel {
    Active,
    TimeSensitive,
    Passive,
}

/// The normalized outbound notification. Every field is optional; an absent
/// field is left out of the encoded form so the receiver applies its default.
#[derive(Debug)]
pub struct BarkPostBody {
    pub title: Option<String>,
    pub body: Option<String>,
    pub level: Option<BarkNotificationLevel>,
    pub badge: Option<i32>,
    pub auto_copy: Option<bool>,
    pub copy: Option<String>,
    pub sound: Option<String>,
    pub icon: Option<String>,
}

/// The fields of a `BarkPostBody`, in the order they are encoded.
#[derive(Clone, Copy, Debug, PartialEq, Eq, Structural)]
pub enum BodyField {
    Title,
    Body,
    Level,
    Badge,
    AutoCopy,
    CopyValue,
    Sound,
    Icon,
}

/// The JSON string literal (quoted and escaped) that serde_json writes for `s`.
pub uninterp spec fn json_string_literal(s: Seq<char>) -> Seq<char>;

/// Relies on serde_json's `Display` for `Value::String`: it writes the JSON
/// string literal for the given text.
#[verifier::external_body]
fn json_quote(s: &str) -> (r: String)
    ensures
        r@ == json_string_literal(s@),
{
    serde_json::Value::String(s.to_string()).to_string()
}

/// The JSON key under which a field is encoded.
pub open spec fn key_text(f: BodyField) -> Seq<char> {
    match f {
        BodyField::Title => "title"@,
        BodyField::Body => "body"@,
        BodyField::Level => "level"@,
        BodyField::Badge => "badge"@,
        BodyField::AutoCopy => "autoCopy"@,
        BodyField::CopyValue => "copy"@,
        BodyField::Sound => "sound"@,
        BodyField::Icon => "icon"@,
    }
}

fn key_str(f: BodyField) -> (r: &'static str)
    ensures
        r@ == key_text(f),
{
    match f {
        BodyField::Title => "title",
        BodyField::Body => "body",
        BodyField::Level => "level",
        BodyField::Badge => "badge",
        BodyField::AutoCopy => "autoCopy",
        BodyField::CopyValue => "copy",
        BodyField::Sound => "sound",
        BodyField::Icon => "icon",
    }
}

/// The JSON value of a level: its variant name in camel case, as a string.
pub open spec fn level_text(l: BarkNotificationLevel) -> Seq<char> {
    match l {
        BarkNotificationLevel::Active => "\"active\""@,
        BarkNotificationLevel::TimeSensitive => "\"timeSensitive\""@,
        BarkNotificationLevel::Passive => "\"passive\""@,
    }
}

fn level_str(l: BarkNotificationLevel) -> (r: &'static str)
    ensures
        r@ == level_text(l),
{
    match l {
        BarkNotificationLevel::Active => "\"active\"",
        BarkNotificationLevel::TimeSensitive => "\"timeSensitive\"",
        BarkNotificationLevel::Passive => "\"passive\"",
    }
}

pub open spec fn bool_text(b: bool) -> Seq<char> {
    if b {
        "true"@
    } else {
        "false"@
    }
}

/// The decimal digit `d` as text.
pub open spec fn digit_text(d: nat) -> Seq<char> {
    if d == 0 {
        "0"@
    } else if d == 1 {
        "1"@
    } else if d == 2 {
        "2"@
    } else if d == 3 {
        "3"@
    } else if d == 4 {
        "4"@
    } else if d == 5 {
        "5"@
    } else if d == 6 {
        "6"@
    } else if d == 7 {
        "7"@
    } else if d == 8 {
        "8"@
    } else {
        "9"@
    }
}

/// The decimal notation of a natural number, without leading zeros.
pub open spec fn nat_text(n: nat) -> Seq<char>
    decreases n,
{
    if n < 10 {
        digit_text(n)
    } else {
        nat_text(n / 10) + digit_text(n % 10)
    }
}

/// The decimal notation of an integer, with a leading minus sign when negative.
pub open spec fn int_text(n: int) -> Seq<char> {
    if n < 0 {
        "-"@ + nat_text((-n) as nat)
    } else {
        nat_text(n as nat)
    }
}

fn digit_str(d: u32) -> (r: &'static str)
    requires
        d < 10,
    ensures
        r@ == digit_text(d as nat),
{
    if d == 0 {
        "0"
    } else if d == 1 {
        "1"
    } else if d == 2 {
        "2"
    } else if d == 3 {
        "3"
    } else if d == 4 {
        "4"
    } else if d == 5 {
        "5"
    } else if d == 6 {
        "6"
    } else if d == 7 {
        "7"
    } else if d == 8 {
        "8"
    } else {
        "9"
    }
}

fn append_nat(out: &mut String, n: u32)
    ensures
        final(out)@ == old(out)@ + nat_text(n as nat),
    decreases n,
{
    if n >= 10 {
        append_nat(out, n / 10);
    }
    out.append(digit_str(n % 10));
    assert(final(out)@ =~= old(out)@ + nat_text(n as nat));
}

/// The decimal notation of `n`.
pub fn decimal_text(n: i32) -> (r: String)
    ensures
        r@ == int_text(n as int),
{
    let mut out = String::new();
    if n < 0 {
        out.append("-");
        let m: u32 = (-(n as i64)) as u32;
        append_nat(&mut out, m);
    } else {
        append_nat(&mut out, n as u32);
    }
    out
}

/// One encoded member: a field and the JSON text of its value.
pub type Member = (BodyField, Seq<char>);

/// The encoding order of the fields.
pub open spec fn field_at(i: int) -> BodyField {
    if i == 0 {
        BodyField::Title
    } else if i == 1 {
        BodyField::Body
    } else if i == 2 {
        BodyField::Level
    } else if i == 3 {
        BodyField::Badge
    } else if i == 4 {
        BodyField::AutoCopy
    } else if i == 5 {
        BodyField::CopyValue
    } else if i == 6 {
        BodyField::Sound
    } else {
        BodyField::Icon
    }
}

/// The number of fields of a `BarkPostBody`.
pub const FIELD_COUNT: usize = 8;

fn field_at_exec(i: usize) -> (r: BodyField)
    ensures
        r == field_at(i as int),
{
    if i == 0 {
        BodyField::Title
    } else if i == 1 {
        BodyField::Body
    } else if i == 2 {
        BodyField::Level
    } else if i == 3 {
        BodyField::Badge
    } else if i == 4 {
        BodyField::AutoCopy
    } else if i == 5 {
        BodyField::CopyValue
    } else if i == 6 {
        BodyField::Sound
    } else {
        BodyField::Icon
    }
}

pub open spec fn string_value(v: Option<String>) -> Option<Seq<char>> {
    match v {
        Some(s) => Some(json_string_literal(s@)),
        None => None,
    }
}

/// The JSON text of field `f` of `b`, or `None` when the field is absent.
pub open spec fn value_of(b: BarkPostBody, f: BodyField) -> Option<Seq<char>> {
    match f {
        BodyField::Title => string_value(b.title),
        BodyField::Body => string_value(b.body),
        BodyField::Level => match b.level {
            Some(l) => Some(level_text(l)),
            None => None,
        },
        BodyField::Badge => match b.badge {
            Some(n) => Some(int_text(n as int)),
            None => None,
        },
        BodyField::AutoCopy => match b.auto_copy {
            Some(c) => Some(bool_text(c)),
            None => None,
        },
        BodyField::CopyValue => string_value(b.copy),
        BodyField::Sound => string_value(b.sound),
        BodyField::Icon => string_value(b.icon),
    }
}

/// `ms` followed by the member for `f`, when `f` has a value.
pub open spec fn push_present(ms: Seq<Member>, f: BodyField, v: Option<Seq<char>>) -> Seq<Member> {
    match v {
        Some(t) => ms.push((f, t)),
        None => ms,
    }
}

/// The members for the first `n` fields in encoding order.
pub open spec fn members_upto(b: BarkPostBody, n: nat) -> Seq<Member>
    decreases n,
{
    if n == 0 {
        Seq::empty()
    } else {
        push_present(members_upto(b, (n - 1) as nat), field_at(n - 1), value_of(b, field_at(n - 1)))
    }
}

/// The members of the encoded form of `b`, in field order: one for each
/// present field.
pub open spec fn members(b: BarkPostBody) -> Seq<Member> {
    members_upto(b, 8)
}

/// `"key":value`
pub open spec fn member_text(m: Member) -> Seq<char> {
    "\""@ + key_text(m.0) + "\":"@ + m.1
}

/// The members' texts joined with commas.
pub open spec fn render_members(ms: Seq<Member>) -> Seq<char>
    decreases ms.len(),
{
    if ms.len() == 0 {
        Seq::empty()
    } else if ms.len() == 1 {
        member_text(ms[0])
    } else {
        render_members(ms.drop_last()) + ","@ + member_text(ms.last())
    }
}

/// The JSON object that carries `b`.
pub open spec fn encoding(b: BarkPostBody) -> Seq<char> {
    "{"@ + render_members(members(b)) + "}"@
}

/// Whether field `f` of `b` holds a value.
pub open spec fn is_present(b: BarkPostBody, f: BodyField) -> bool {
    match f {
        BodyField::Title => b.title is Some,
        BodyField::Body => b.body is Some,
        BodyField::Level => b.level is Some,
        BodyField::Badge => b.badge is Some,
        BodyField::AutoCopy => b.auto_copy is Some,
        BodyField::CopyValue => b.copy is Some,
        BodyField::Sound => b.sound is Some,
        BodyField::Icon => b.icon is Some,
    }
}

/// Whether some member of `ms` is keyed by `f`.
pub open spec fn has_member(ms: Seq<Member>, f: BodyField) -> bool {
    exists|i: int| 0 <= i < ms.len() && (#[trigger] ms[i]).0 == f
}

proof fn lemma_push_present(ms: Seq<Member>, f: BodyField, v: Option<Seq<char>>, g: BodyField)
    ensures
        has_member(push_present(ms, f, v), g) <==> (has_member(ms, g) || (g == f && v is Some)),
{
    let next = push_present(ms, f, v);
    if has_member(ms, g) {
        let i = choose|i: int| 0 <= i < ms.len() && (#[trigger] ms[i]).0 == g;
        assert(next[i] == ms[i]);
    }
    if g == f && v is Some {
        assert(next[ms.len() as int].0 == g);
    }
    if has_member(next, g) {
        let i = choose|i: int| 0 <= i < next.len() && (#[trigger] next[i]).0 == g;
        if i < ms.len() {
            assert(ms[i] == next[i]);
        }
    }
}

proof fn lemma_members_upto(b: BarkPostBody, n: nat, f: BodyField)
    requires
        n <= 8,
    ensures
        has_member(members_upto(b, n), f) <==> exists|i: int|
            0 <= i < n && #[trigger] field_at(i) == f && value_of(b, f) is Some,
    decreases n,
{
    if n > 0 {
        let k = (n - 1) as nat;
        lemma_members_upto(b, k, f);
        lemma_push_present(members_upto(b, k), field_at(k as int), value_of(b, field_at(k as int)), f);
        if field_at(k as int) == f && value_of(b, f) is Some {
            assert(exists|i: int| 0 <= i < n && #[trigger] field_at(i) == f && value_of(b, f) is Some);
        }
        if exists|i: int| 0 <= i < n && #[trigger] field_at(i) == f && value_of(b, f) is Some {
            let i = choose|i: int| 0 <= i < n && #[trigger] field_at(i) == f && value_of(b, f) is Some;
            if i < k {
                assert(exists|i: int| 0 <= i < k && #[trigger] field_at(i) == f && value_of(b, f) is Some);
            }
        }
    }
}

/// The encoded form of a payload carries a member for a field exactly when
/// that field is present: an absent field is omitted, never written as null.
pub proof fn lemma_absent_fields_omitted(b: BarkPostBody, f: BodyField)
    ensures
        has_member(members(b), f) <==> is_present(b, f),
{
    lemma_members_upto(b, 8, f);
    let i: int = match f {
        BodyField::Title => 0,
        BodyField::Body => 1,
        BodyField::Level => 2,
        BodyField::Badge => 3,
        BodyField::AutoCopy => 4,
        BodyField::CopyValue => 5,
        BodyField::Sound => 6,
        BodyField::Icon => 7,
    };
    assert(field_at(i) == f);
}

fn append_member(out: &mut String, acc: Ghost<Seq<Member>>, first: bool, f: BodyField, value: &str) -> (next: Ghost<Seq<Member>>)
    requires
        old(out)@ == "{"@ + render_members(acc@),
        first == (acc@.len() == 0),
    ensures
        next@ == acc@.push((f, value@)),
        final(out)@ == "{"@ + render_members(next@),
{
    let ghost m: Member = (f, value@);
    let ghost next = acc@.push(m);
    if !first {
        out.append(",");
    }
    out.append("\"");
    out.append(key_str(f));
    out.append("\":");
    out.append(value);
    assert(next.drop_last() =~= acc@);
    assert(final(out)@ =~= "{"@ + render_members(next));
    Ghost(next)
}

impl BarkPostBody {
    /// An independent copy with the same field values.
    pub fn duplicate(&self) -> (r: BarkPostBody)
        ensures
            r == *self,
    {
        BarkPostBody {
            title: copy_text(&self.title),
            body: copy_text(&self.body),
            level: self.level,
            badge: self.badge,
            auto_copy: self.auto_copy,
            copy: copy_text(&self.copy),
            sound: copy_text(&self.sound),
            icon: copy_text(&self.icon),
        }
    }

    /// The JSON text of field `f`, or `None` when it is absent.
    fn value_text(&self, f: BodyField) -> (r: Option<String>)
        ensures
            match r {
                Some(t) => value_of(*self, f) == Some(t@),
                None => value_of(*self, f) is None,
            },
    {
        let text: Option<&String> = match f {
            BodyField::Title => self.title.as_ref(),
            BodyField::Body => self.body.as_ref(),
            BodyField::CopyValue => self.copy.as_ref(),
            BodyField::Sound => self.sound.as_ref(),
            BodyField::Icon => self.icon.as_ref(),
            BodyField::Level => {
                return match self.level {
                    Some(l) => Some(String::from_str(level_str(l))),
                    None => None,
                };
            },
            BodyField::Badge => {
                return match self.badge {
                    Some(n) => Some(decimal_text(n)),
                    None => None,
                };
            },
            BodyField::AutoCopy => {
                return match self.auto_copy {
                    Some(true) => Some(String::from_str("true")),
                    Some(false) => Some(String::from_str("false")),
                    None => None,
                };
            },
        };
        match text {
            Some(t) => Some(json_quote(t.as_str())),
            None => None,
        }
    }

    /// The JSON text sent to a destination: one member per present field, in
    /// field order, with absent fields left out.
    pub fn encode(&self) -> (r: String)
        ensures
            r@ == encoding(*self),
    {
        let mut out = String::from_str("{");
        let mut acc: Ghost<Seq<Member>> = Ghost(Seq::empty());
        let mut first = true;
        assert(out@ =~= "{"@ + render_members(acc@));
        let mut i: usize = 0;
        while i < FIELD_COUNT
            invariant
                i <= FIELD_COUNT,
                acc@ == members_upto(*self, i as nat),
                out@ == "{"@ + render_members(acc@),
                first == (acc@.len() == 0),
            decreases FIELD_COUNT - i,
        {
            let f = field_at_exec(i);
            let v = self.value_text(f);
            if let Some(t) = v {
                acc = append_member(&mut out, acc, first, f, t.as_str());
                first = false;
            }
            i = i + 1;
        }
        out.append("}");
        out
    }
}

fn copy_text(o: &Option<String>) -> (r: Option<String>)
    ensures
        r == *o,
{
    match o {
        Some(s) => Some(s.clone()),
        None => None,
    }
}

} // verus!
