//! Where a word in the master list comes from, and its stored name.
use vstd::prelude::*;

verus! {

/// The word list a master word belongs to.
#[derive(Debug, Clone, Copy, PartialEq, Eq, Structural)]
pub enum Source {
    ElementarySchool,
    JuniorHighSchool,
    HighSchool,
    Cet4,
    Cet6,
    Custom,
    Other,
}

/// The name under which each source is stored.
pub open spec fn source_name(s: Source) -> Seq<char> {
    match s {
        Source::ElementarySchool => "ElementarySchool"@,
        Source::JuniorHighSchool => "JuniorHighSchool"@,
        Source::HighSchool => "HighSchool"@,
        Source::Cet4 => "CET4"@,
        Source::Cet6 => "CET6"@,
        Source::Custom => "Custom"@,
        Source::Other => "Other"@,
    }
}

/// The source stored under `name`, if any.
pub open spec fn source_of_name(name: Seq<char>) -> Option<Source> {
    if name == "ElementarySchool"@ {
        Some(Source::ElementarySchool)
    } else if name == "JuniorHighSchool"@ {
        Some(Source::JuniorHighSchool)
    } else if name == "HighSchool"@ {
        Some(Source::HighSchool)
    } else if name == "CET4"@ {
        Some(Source::Cet4)
    } else if name == "CET6"@ {
        Some(Source::Cet6)
    } else if name == "Custom"@ {
        Some(Source::Custom)
    } else if name == "Other"@ {
        Some(Source::Other)
    } else {
        None
    }
}

impl Source {
    /// The stored name of this source.
    pub fn as_str(&self) -> (r: &'static str)
        ensures
            r@ == source_name(*self),
    {
        match self {
            Source::ElementarySchool => "ElementarySchool",
            Source::JuniorHighSchool => "JuniorHighSchool",
            Source::HighSchool => "HighSchool",
            Source::Cet4 => "CET4",
            Source::Cet6 => "CET6",
            Source::Custom => "Custom",
            Source::Other => "Other",
        }
    }

    /// The source stored under `name`; `None` for an unknown name.
    pub fn from_name(name: &str) -> (r: Option<Source>)
        ensures
            r == source_of_name(name@),
    {
        let n = name.to_owned();
        if n == "ElementarySchool".to_owned() {
            Some(Source::ElementarySchool)
        } else if n == "JuniorHighSchool".to_owned() {
            Some(Source::JuniorHighSchool)
        } else if n == "HighSchool".to_owned() {
            Some(Source::HighSchool)
        } else if n == "CET4".to_owned() {
            Some(Source::Cet4)
        } else if n == "CET6".to_owned() {
            Some(Source::Cet6)
        } else if n == "Custom".to_owned() {
            Some(Source::Custom)
        } else if n == "Other".to_owned() {
            Some(Source::Other)
        } else {
            None
        }
    }
}

/// Every source reads back from its stored name.
pub proof fn lemma_source_name_round_trip(s: Source)
    ensures
        source_of_name(source_name(s)) == Some(s),
{
    reveal_strlit("ElementarySchool");
    reveal_strlit("JuniorHighSchool");
    reveal_strlit("HighSchool");
    reveal_strlit("CET4");
    reveal_strlit("CET6");
    reveal_strlit("Custom");
    reveal_strlit("Other");
    assert("ElementarySchool"@[0] != "JuniorHighSchool"@[0]);
    assert("CET4"@[3] != "CET6"@[3]);
    assert("ElementarySchool"@.len() == 16 && "JuniorHighSchool"@.len() == 16);
    assert("HighSchool"@.len() == 10 && "Custom"@.len() == 6 && "Other"@.len() == 5);
    assert("CET4"@.len() == 4 && "CET6"@.len() == 4);
}

impl AsRef<str> for Source {
    fn as_ref(&self) -> &str {
        self.as_str()
    }
}

impl std::str::FromStr for Source {
    type Err = ();

    fn from_str(s: &str) -> Result<Source, ()> {
        match Source::from_name(s) {
            Some(source) => Ok(source),
            None => Err(()),
        }
    }
}

} // verus!
