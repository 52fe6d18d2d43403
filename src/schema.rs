use vstd::prelude::*;
use vstd::string::StrSliceExecFns;

verus! {

/// Whether two strings hold the same characters.
fn same_text(a: &str, b: &str) -> (r: bool)
    ensures
        r == (a@ == b@),
{
    let n = a.unicode_len();
    if n != b.unicode_len() {
        return false;
    }
    let mut i: usize = 0;
    while i < n
        invariant
            n == a@.len(),
            n == b@.len(),
            i <= n,
            forall|j: int| 0 <= j < i ==> a@[j] == b@[j],
        decreases n - i,
    {
        if a.get_char(i) != b.get_char(i) {
            return false;
        }
        i = i + 1;
    }
    assert(a@ =~= b@);
    true
}

/// How explicit a collection or track is rated. The set is closed: a tag outside it is not read.
#[derive(Clone, Copy, Debug, PartialEq, Eq, Structural)]
pub enum Explicitness {
    /// Written `cleaned`.
    Cleaned,
    /// Written `explicit`.
    Explicit,
    /// Written `notExplicit`.
    NotExplicit,
}

impl Explicitness {
    /// The tag that stands for this value in a response.
    pub open spec fn tag_text(self) -> Seq<char> {
        match self {
            Explicitness::Cleaned => "cleaned"@,
            Explicitness::Explicit => "explicit"@,
            Explicitness::NotExplicit => "notExplicit"@,
        }
    }

    /// The value that a tag stands for, if it is one of the set.
    pub open spec fn parse_tag(s: Seq<char>) -> Option<Self> {
        if s == "cleaned"@ {
            Some(Explicitness::Cleaned)
        } else if s == "explicit"@ {
            Some(Explicitness::Explicit)
        } else if s == "notExplicit"@ {
            Some(Explicitness::NotExplicit)
        } else {
            None
        }
    }

    /// The tag of this value.
    pub fn tag(&self) -> (r: &'static str)
        ensures
            r@ == self.tag_text(),
    {
        match self {
            Explicitness::Cleaned => "cleaned",
            Explicitness::Explicit => "explicit",
            Explicitness::NotExplicit => "notExplicit",
        }
    }

    /// Reads a tag; `None` when it is none of the set.
    pub fn from_tag(s: &str) -> (r: Option<Self>)
        ensures
            r == Self::parse_tag(s@),
    {
        if same_text(s, "cleaned") {
            Some(Explicitness::Cleaned)
        } else if same_text(s, "explicit") {
            Some(Explicitness::Explicit)
        } else if same_text(s, "notExplicit") {
            Some(Explicitness::NotExplicit)
        } else {
            None
        }
    }

    /// Writing a value as its tag and reading the tag back gives the value;
    /// a tag is read as a value only when it is that value's tag.
    pub proof fn lemma_tag_round_trip(self, s: Seq<char>)
        ensures
            Self::parse_tag(self.tag_text()) == Some(self),
            Self::parse_tag(s) == Some(self) <==> s == self.tag_text(),
    {
        reveal_strlit("cleaned");
        reveal_strlit("explicit");
        reveal_strlit("notExplicit");
        assert("cleaned"@.len() == 7);
        assert("explicit"@.len() == 8);
        assert("notExplicit"@.len() == 11);
    }
}

/// The content advisory rating of a result. The set is closed: a tag outside it is not read.
#[derive(Clone, Copy, Debug, PartialEq, Eq, Structural)]
pub enum ContentAdvisoryRating {
    /// Written `Clean`.
    Clean,
    /// Written `Explicit`.
    Explicit,
}

impl ContentAdvisoryRating {
    /// The tag that stands for this value in a response.
    pub open spec fn tag_text(self) -> Seq<char> {
        match self {
            ContentAdvisoryRating::Clean => "Clean"@,
            ContentAdvisoryRating::Explicit => "Explicit"@,
        }
    }

    /// The value that a tag stands for, if it is one of the set.
    pub open spec fn parse_tag(s: Seq<char>) -> Option<Self> {
        if s == "Clean"@ {
            Some(ContentAdvisoryRating::Clean)
        } else if s == "Explicit"@ {
            Some(ContentAdvisoryRating::Explicit)
        } else {
            None
        }
    }

    /// The tag of this value.
    pub fn tag(&self) -> (r: &'static str)
        ensures
            r@ == self.tag_text(),
    {
        match self {
            ContentAdvisoryRating::Clean => "Clean",
            ContentAdvisoryRating::Explicit => "Explicit",
        }
    }

    /// Reads a tag; `None` when it is none of the set.
    pub fn from_tag(s: &str) -> (r: Option<Self>)
        ensures
            r == Self::parse_tag(s@),
    {
        if same_text(s, "Clean") {
            Some(ContentAdvisoryRating::Clean)
        } else if same_text(s, "Explicit") {
            Some(ContentAdvisoryRating::Explicit)
        } else {
            None
        }
    }

    /// Writing a value as its tag and reading the tag back gives the value;
    /// a tag is read as a value only when it is that value's tag.
    pub proof fn lemma_tag_round_trip(self, s: Seq<char>)
        ensures
            Self::parse_tag(self.tag_text()) == Some(self),
            Self::parse_tag(s) == Some(self) <==> s == self.tag_text(),
    {
        reveal_strlit("Clean");
        reveal_strlit("Explicit");
        assert("Clean"@.len() == 5);
        assert("Explicit"@.len() == 8);
    }
}

/// The storefront country of a result. The set is closed: a tag outside it is not read.
#[derive(Clone, Copy, Debug, PartialEq, Eq, Structural)]
pub enum Country {
    /// Written `USA`.
    USA,
}

impl Country {
    /// The tag that stands for this value in a response.
    pub open spec fn tag_text(self) -> Seq<char> {
        "USA"@
    }

    /// The value that a tag stands for, if it is one of the set.
    pub open spec fn parse_tag(s: Seq<char>) -> Option<Self> {
        if s == "USA"@ {
            Some(Country::USA)
        } else {
            None
        }
    }

    /// The tag of this value.
    pub fn tag(&self) -> (r: &'static str)
        ensures
            r@ == self.tag_text(),
    {
        "USA"
    }

    /// Reads a tag; `None` when it is none of the set.
    pub fn from_tag(s: &str) -> (r: Option<Self>)
        ensures
            r == Self::parse_tag(s@),
    {
        if same_text(s, "USA") {
            Some(Country::USA)
        } else {
            None
        }
    }

    /// Writing a value as its tag and reading the tag back gives the value;
    /// a tag is read as a value only when it is that value's tag.
    pub proof fn lemma_tag_round_trip(self, s: Seq<char>)
        ensures
            Self::parse_tag(self.tag_text()) == Some(self),
            Self::parse_tag(s) == Some(self) <==> s == self.tag_text(),
    {
        reveal_strlit("USA");
    }
}

/// The currency that the prices of a result are given in. The set is closed: a tag outside it is not read.
#[derive(Clone, Copy, Debug, PartialEq, Eq, Structural)]
pub enum Currency {
    /// Written `USD`.
    USD,
}

impl Currency {
    /// The tag that stands for this value in a response.
    pub open spec fn tag_text(self) -> Seq<char> {
        "USD"@
    }

    /// The value that a tag stands for, if it is one of the set.
    pub open spec fn parse_tag(s: Seq<char>) -> Option<Self> {
        if s == "USD"@ {
            Some(Currency::USD)
        } else {
            None
        }
    }

    /// The tag of this value.
    pub fn tag(&self) -> (r: &'static str)
        ensures
            r@ == self.tag_text(),
    {
        "USD"
    }

    /// Reads a tag; `None` when it is none of the set.
    pub fn from_tag(s: &str) -> (r: Option<Self>)
        ensures
            r == Self::parse_tag(s@),
    {
        if same_text(s, "USD") {
            Some(Currency::USD)
        } else {
            None
        }
    }

    /// Writing a value as its tag and reading the tag back gives the value;
    /// a tag is read as a value only when it is that value's tag.
    pub proof fn lemma_tag_round_trip(self, s: Seq<char>)
        ensures
            Self::parse_tag(self.tag_text()) == Some(self),
            Self::parse_tag(s) == Some(self) <==> s == self.tag_text(),
    {
        reveal_strlit("USD");
    }
}

/// The kind of media a result describes. The set is closed: a tag outside it is not read.
#[derive(Clone, Copy, Debug, PartialEq, Eq, Structural)]
pub enum Kind {
    /// Written `podcast`.
    Podcast,
}

impl Kind {
    /// The tag that stands for this value in a response.
    pub open spec fn tag_text(self) -> Seq<char> {
        "podcast"@
    }

    /// The value that a tag stands for, if it is one of the set.
    pub open spec fn parse_tag(s: Seq<char>) -> Option<Self> {
        if s == "podcast"@ {
            Some(Kind::Podcast)
        } else {
            None
        }
    }

    /// The tag of this value.
    pub fn tag(&self) -> (r: &'static str)
        ensures
            r@ == self.tag_text(),
    {
        "podcast"
    }

    /// Reads a tag; `None` when it is none of the set.
    pub fn from_tag(s: &str) -> (r: Option<Self>)
        ensures
            r == Self::parse_tag(s@),
    {
        if same_text(s, "podcast") {
            Some(Kind::Podcast)
        } else {
            None
        }
    }

    /// Writing a value as its tag and reading the tag back gives the value;
    /// a tag is read as a value only when it is that value's tag.
    pub proof fn lemma_tag_round_trip(self, s: Seq<char>)
        ensures
            Self::parse_tag(self.tag_text()) == Some(self),
            Self::parse_tag(s) == Some(self) <==> s == self.tag_text(),
    {
        reveal_strlit("podcast");
    }
}

/// The wrapper type of a result. The set is closed: a tag outside it is not read.
#[derive(Clone, Copy, Debug, PartialEq, Eq, Structural)]
pub enum WrapperType {
    /// Written `track`.
    Track,
}

impl WrapperType {
    /// The tag that stands for this value in a response.
    pub open spec fn tag_text(self) -> Seq<char> {
        "track"@
    }

    /// The value that a tag stands for, if it is one of the set.
    pub open spec fn parse_tag(s: Seq<char>) -> Option<Self> {
        if s == "track"@ {
            Some(WrapperType::Track)
        } else {
            None
        }
    }

    /// The tag of this value.
    pub fn tag(&self) -> (r: &'static str)
        ensures
            r@ == self.tag_text(),
    {
        "track"
    }

    /// Reads a tag; `None` when it is none of the set.
    pub fn from_tag(s: &str) -> (r: Option<Self>)
        ensures
            r == Self::parse_tag(s@),
    {
        if same_text(s, "track") {
            Some(WrapperType::Track)
        } else {
            None
        }
    }

    /// Writing a value as its tag and reading the tag back gives the value;
    /// a tag is read as a value only when it is that value's tag.
    pub proof fn lemma_tag_round_trip(self, s: Seq<char>)
        ensures
            Self::parse_tag(self.tag_text()) == Some(self),
            Self::parse_tag(s) == Some(self) <==> s == self.tag_text(),
    {
        reveal_strlit("track");
    }
}

} // verus!
