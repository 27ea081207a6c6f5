//! Channels and the values recorded for them, with their text forms.
use vstd::prelude::*;
use vstd::string::*;

verus! {

/// The name of a recorded channel.
#[derive(Debug, Clone, Hash)]
pub enum ChannelName {
    Satellites,
    Time,
    Latitude,
    Longitude,
    Velocity,
    Heading,
    Height,
    LongAccel,
    LatAccel,
    Custom(String),
}

/// Whether `s` is the text of one of the fixed channel names.
pub open spec fn known_name(s: Seq<char>) -> bool {
    s == "satellites"@ || s == "time"@ || s == "latitude"@ || s == "longitude"@ || s
        == "velocity"@ || s == "heading"@ || s == "height"@ || s == "long accel"@ || s
        == "lat accel"@
}

impl ChannelName {
    /// The text form of the name.
    pub open spec fn text(&self) -> Seq<char> {
        match self {
            ChannelName::Satellites => "satellites"@,
            ChannelName::Time => "time"@,
            ChannelName::Latitude => "latitude"@,
            ChannelName::Longitude => "longitude"@,
            ChannelName::Velocity => "velocity"@,
            ChannelName::Heading => "heading"@,
            ChannelName::Height => "height"@,
            ChannelName::LongAccel => "long accel"@,
            ChannelName::LatAccel => "lat accel"@,
            ChannelName::Custom(s) => s@,
        }
    }

    /// The position of the variant in the declaration.
    pub open spec fn tag(&self) -> nat {
        match self {
            ChannelName::Satellites => 0,
            ChannelName::Time => 1,
            ChannelName::Latitude => 2,
            ChannelName::Longitude => 3,
            ChannelName::Velocity => 4,
            ChannelName::Heading => 5,
            ChannelName::Height => 6,
            ChannelName::LongAccel => 7,
            ChannelName::LatAccel => 8,
            ChannelName::Custom(_) => 9,
        }
    }

    /// Same variant and same text.
    pub open spec fn same(&self, o: &ChannelName) -> bool {
        self.tag() == o.tag() && self.text() == o.text()
    }

    fn tag_of(&self) -> (r: u8)
        ensures
            r as nat == self.tag(),
    {
        match self {
            ChannelName::Satellites => 0,
            ChannelName::Time => 1,
            ChannelName::Latitude => 2,
            ChannelName::Longitude => 3,
            ChannelName::Velocity => 4,
            ChannelName::Heading => 5,
            ChannelName::Height => 6,
            ChannelName::LongAccel => 7,
            ChannelName::LatAccel => 8,
            ChannelName::Custom(_) => 9,
        }
    }

    pub fn as_str(&self) -> (r: &str)
        ensures
            r@ == self.text(),
    {
        match self {
            ChannelName::Satellites => "satellites",
            ChannelName::Time => "time",
            ChannelName::Latitude => "latitude",
            ChannelName::Longitude => "longitude",
            ChannelName::Velocity => "velocity",
            ChannelName::Heading => "heading",
            ChannelName::Height => "height",
            ChannelName::LongAccel => "long accel",
            ChannelName::LatAccel => "lat accel",
            ChannelName::Custom(s) => s.as_str(),
        }
    }

    /// The name whose text is `s`: a fixed name where one has that text, else
    /// `Custom` holding `s` as it is.
    pub fn parse(s: &str) -> (r: ChannelName)
        ensures
            r.text() == s@,
            r is Custom <==> !known_name(s@),
    {
        let t = String::from_str(s);
        if t == String::from_str("satellites") {
            ChannelName::Satellites
        } else if t == String::from_str("time") {
            ChannelName::Time
        } else if t == String::from_str("latitude") {
            ChannelName::Latitude
        } else if t == String::from_str("longitude") {
            ChannelName::Longitude
        } else if t == String::from_str("velocity") {
            ChannelName::Velocity
        } else if t == String::from_str("heading") {
            ChannelName::Heading
        } else if t == String::from_str("height") {
            ChannelName::Height
        } else if t == String::from_str("long accel") {
            ChannelName::LongAccel
        } else if t == String::from_str("lat accel") {
            ChannelName::LatAccel
        } else {
            ChannelName::Custom(t)
        }
    }
}

/// The fixed names have distinct texts, each of them known.
pub proof fn lemma_fixed_name_texts(a: ChannelName, b: ChannelName)
    requires
        !(a is Custom),
        !(b is Custom),
    ensures
        known_name(a.text()),
        a.text() == b.text() ==> a.tag() == b.tag(),
{
    reveal_strlit("satellites");
    reveal_strlit("time");
    reveal_strlit("latitude");
    reveal_strlit("longitude");
    reveal_strlit("velocity");
    reveal_strlit("heading");
    reveal_strlit("height");
    reveal_strlit("long accel");
    reveal_strlit("lat accel");
    if a.text() == b.text() {
        assert(a.text().len() == b.text().len());
        assert(a.text()[0] == b.text()[0]);
        assert(a.text()[1] == b.text()[1]);
    }
}

/// What `parse` gives for the text of a name is that name again, but for a
/// custom name holding the text of a fixed one.
pub proof fn lemma_name_round_trip(n: ChannelName, parsed: ChannelName)
    requires
        parsed.text() == n.text(),
        parsed is Custom <==> !known_name(n.text()),
        n is Custom ==> !known_name(n.text()),
    ensures
        parsed.same(&n),
{
    if !(n is Custom) {
        lemma_fixed_name_texts(n, parsed);
        lemma_fixed_name_texts(parsed, n);
    }
}

/// What `parse` gives for the text of a unit is that unit again, but for a
/// custom unit holding the text of a fixed one.
pub proof fn lemma_unit_round_trip(u: ChannelUnit, parsed: ChannelUnit)
    requires
        parsed.text() == u.text(),
        parsed is Custom <==> !known_unit(u.text()),
        u is Custom ==> !known_unit(u.text()),
    ensures
        parsed.tag() == u.tag() && parsed.text() == u.text(),
{
    reveal_strlit("kmh");
    reveal_strlit("g");
    assert("kmh"@.len() == 3);
    assert("g"@.len() == 1);
}

impl PartialEq for ChannelName {
    fn eq(&self, o: &ChannelName) -> (r: bool) {
        match self {
            ChannelName::Custom(a) => match o {
                ChannelName::Custom(b) => *a == *b,
                _ => false,
            },
            _ => self.tag_of() == o.tag_of(),
        }
    }
}

impl vstd::std_specs::cmp::PartialEqSpecImpl for ChannelName {
    open spec fn obeys_eq_spec() -> bool {
        true
    }

    open spec fn eq_spec(&self, o: &ChannelName) -> bool {
        self.same(o)
    }
}

impl<'a> From<&'a str> for ChannelName {
    fn from(s: &'a str) -> (r: ChannelName) {
        ChannelName::parse(s)
    }
}

impl From<String> for ChannelName {
    fn from(s: String) -> (r: ChannelName) {
        ChannelName::parse(s.as_str())
    }
}

impl vstd::std_specs::convert::FromSpecImpl<String> for ChannelName {
    open spec fn obeys_from_spec() -> bool {
        false
    }

    open spec fn from_spec(s: String) -> ChannelName {
        choose|r: ChannelName| r.text() == s@ && (r is Custom <==> !known_name(s@))
    }
}

impl<'a> vstd::std_specs::convert::FromSpecImpl<&'a str> for ChannelName {
    open spec fn obeys_from_spec() -> bool {
        false
    }

    open spec fn from_spec(s: &'a str) -> ChannelName {
        choose|r: ChannelName| r.text() == s@ && (r is Custom <==> !known_name(s@))
    }
}


/// The unit of a recorded channel.
#[derive(Debug, Clone, Hash)]
pub enum ChannelUnit {
    Kmh,
    G,
    Custom(String),
}

/// Whether `s` is the text of one of the fixed units.
pub open spec fn known_unit(s: Seq<char>) -> bool {
    s == "kmh"@ || s == "g"@
}

impl ChannelUnit {
    /// The text form of the unit.
    pub open spec fn text(&self) -> Seq<char> {
        match self {
            ChannelUnit::Kmh => "kmh"@,
            ChannelUnit::G => "g"@,
            ChannelUnit::Custom(s) => s@,
        }
    }

    /// The position of the variant in the declaration.
    pub open spec fn tag(&self) -> nat {
        match self {
            ChannelUnit::Kmh => 0,
            ChannelUnit::G => 1,
            ChannelUnit::Custom(_) => 2,
        }
    }

    fn tag_of(&self) -> (r: u8)
        ensures
            r as nat == self.tag(),
    {
        match self {
            ChannelUnit::Kmh => 0,
            ChannelUnit::G => 1,
            ChannelUnit::Custom(_) => 2,
        }
    }

    pub fn as_str(&self) -> (r: &str)
        ensures
            r@ == self.text(),
    {
        match self {
            ChannelUnit::Kmh => "kmh",
            ChannelUnit::G => "g",
            ChannelUnit::Custom(s) => s.as_str(),
        }
    }

    /// The unit whose text is `s`: a fixed unit where one has that text, else
    /// `Custom` holding `s` as it is.
    pub fn parse(s: &str) -> (r: ChannelUnit)
        ensures
            r.text() == s@,
            r is Custom <==> !known_unit(s@),
    {
        let t = String::from_str(s);
        if t == String::from_str("kmh") {
            ChannelUnit::Kmh
        } else if t == String::from_str("g") {
            ChannelUnit::G
        } else {
            ChannelUnit::Custom(t)
        }
    }
}

impl PartialEq for ChannelUnit {
    fn eq(&self, o: &ChannelUnit) -> (r: bool) {
        match self {
            ChannelUnit::Custom(a) => match o {
                ChannelUnit::Custom(b) => *a == *b,
                _ => false,
            },
            _ => self.tag_of() == o.tag_of(),
        }
    }
}

impl vstd::std_specs::cmp::PartialEqSpecImpl for ChannelUnit {
    open spec fn obeys_eq_spec() -> bool {
        true
    }

    open spec fn eq_spec(&self, o: &ChannelUnit) -> bool {
        self.tag() == o.tag() && self.text() == o.text()
    }
}

impl<'a> From<&'a str> for ChannelUnit {
    fn from(s: &'a str) -> (r: ChannelUnit) {
        ChannelUnit::parse(s)
    }
}

impl From<String> for ChannelUnit {
    fn from(s: String) -> (r: ChannelUnit) {
        ChannelUnit::parse(s.as_str())
    }
}

impl vstd::std_specs::convert::FromSpecImpl<String> for ChannelUnit {
    open spec fn obeys_from_spec() -> bool {
        false
    }

    open spec fn from_spec(s: String) -> ChannelUnit {
        choose|r: ChannelUnit| r.text() == s@ && (r is Custom <==> !known_unit(s@))
    }
}

impl<'a> vstd::std_specs::convert::FromSpecImpl<&'a str> for ChannelUnit {
    open spec fn obeys_from_spec() -> bool {
        false
    }

    open spec fn from_spec(s: &'a str) -> ChannelUnit {
        choose|r: ChannelUnit| r.text() == s@ && (r is Custom <==> !known_unit(s@))
    }
}

/// A recorded signal: a name and an optional unit.
#[derive(Debug, Clone, PartialEq)]
pub struct Channel {
    pub name: ChannelName,
    pub unit: Option<ChannelUnit>,
}

impl Channel {
    pub fn new(name: ChannelName, unit: Option<ChannelUnit>) -> (r: Channel)
        ensures
            r.name == name,
            r.unit == unit,
    {
        Channel { name, unit }
    }

    /// The header line of the channel: its name, then a space and its unit
    /// where it has one.
    pub open spec fn text(&self) -> Seq<char> {
        match self.unit {
            Some(u) => self.name.text() + seq![' '] + u.text(),
            None => self.name.text(),
        }
    }

    /// Appends the header line of the channel, without a line break.
    pub fn append_to(&self, out: &mut String)
        ensures
            final(out)@ == old(out)@ + self.text(),
    {
        out.append(self.name.as_str());
        match &self.unit {
            Some(u) => {
                proof {
                    reveal_strlit(" ");
                }
                out.append(" ");
                out.append(u.as_str());
            },
            None => {},
        }
        assert(final(out)@ =~= old(out)@ + self.text());
    }

    /// The header line of the channel.
    pub fn to_string(&self) -> (r: String)
        ensures
            r@ == self.text(),
    {
        let mut r = String::new();
        self.append_to(&mut r);
        assert(r@ =~= self.text());
        r
    }
}

} // verus!
