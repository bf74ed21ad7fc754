//! The player's gender and its three spellings: the one stored in the
//! database, the one shown in menus, and free text typed by a user.
use crate::text::{
    all_ascii, ascii_lower, concat, debug_text, lowercase, same_text, debug_rendering,
    to_lowercase, trim, trim_end_spec, trim_start_spec, trimmed, all_ascii_space,
    lemma_trim_ignores_ascii_space,
};
use vstd::prelude::*;

verus! {

broadcast use vstd::string::group_string_axioms;

#[derive(Debug, Clone, Copy, PartialEq, Eq, Structural)]
pub enum Gender {
    Male,
    Female,
    Unspecified,
}

/// Why a text could not be read as a gender; holds the text as it was
/// compared, trimmed and lowercased.
#[derive(Debug)]
pub enum GenderParseError {
    InvalidGender(String),
}

/// The spelling stored in the database.
pub open spec fn db_name(g: Gender) -> Seq<char> {
    match g {
        Gender::Male => "male"@,
        Gender::Female => "female"@,
        Gender::Unspecified => "unspecified"@,
    }
}

/// The spelling shown to the player.
pub open spec fn display_name_spec(g: Gender) -> Seq<char> {
    match g {
        Gender::Male => "Male"@,
        Gender::Female => "Female"@,
        Gender::Unspecified => "Choose not to specify"@,
    }
}

/// Reads a shown spelling; anything else counts as unspecified.
pub open spec fn from_display_spec(s: Seq<char>) -> Gender {
    if s == "Male"@ {
        Gender::Male
    } else if s == "Female"@ {
        Gender::Female
    } else {
        Gender::Unspecified
    }
}

/// Reads a stored spelling; anything else counts as unspecified.
pub open spec fn from_db_spec(s: Seq<char>) -> Gender {
    if s == "male"@ {
        Gender::Male
    } else if s == "female"@ {
        Gender::Female
    } else {
        Gender::Unspecified
    }
}

/// The text that free input is compared by: trimmed, then lowercased.
pub open spec fn normalized(s: Seq<char>) -> Seq<char> {
    lowercase(trimmed(s))
}

/// The gender that free input names, if it names one.
pub open spec fn parsed_spec(s: Seq<char>) -> Option<Gender> {
    let t = normalized(s);
    if t == "male"@ {
        Some(Gender::Male)
    } else if t == "female"@ {
        Some(Gender::Female)
    } else if t == "unspecified"@ {
        Some(Gender::Unspecified)
    } else {
        None
    }
}

impl GenderParseError {
    /// The text that was refused.
    pub open spec fn text(&self) -> Seq<char> {
        match self {
            GenderParseError::InvalidGender(s) => s@,
        }
    }

    /// The error as its `Display` writes it: `Invalid gender: ` and then its
    /// `Debug` form, `InvalidGender("...")`.
    pub fn message(&self) -> (r: String)
        ensures
            r@ == "Invalid gender: InvalidGender("@ + debug_rendering(self.text()) + ")"@,
    {
        match self {
            GenderParseError::InvalidGender(s) => {
                let quoted = debug_text(s.as_str());
                let head = concat("Invalid gender: InvalidGender(", quoted.as_str());
                concat(head.as_str(), ")")
            },
        }
    }
}

impl Gender {
    /// The spelling stored in the database.
    pub fn to_db_string(&self) -> (r: &'static str)
        ensures
            r@ == db_name(*self),
    {
        match self {
            Gender::Male => "male",
            Gender::Female => "female",
            Gender::Unspecified => "unspecified",
        }
    }

    /// The spelling shown to the player (what `Display` writes).
    pub fn display_name(&self) -> (r: &'static str)
        ensures
            r@ == display_name_spec(*self),
    {
        match self {
            Gender::Male => "Male",
            Gender::Female => "Female",
            Gender::Unspecified => "Choose not to specify",
        }
    }

    /// Reads a shown spelling, as the gender menu hands it back.
    pub fn from_string(s: &str) -> (g: Gender)
        ensures
            g == from_display_spec(s@),
    {
        if same_text(s, "Male") {
            Gender::Male
        } else if same_text(s, "Female") {
            Gender::Female
        } else {
            Gender::Unspecified
        }
    }

    /// Reads a stored spelling.
    pub fn from_db_string(s: &str) -> (g: Gender)
        ensures
            g == from_db_spec(s@),
    {
        if same_text(s, "male") {
            Gender::Male
        } else if same_text(s, "female") {
            Gender::Female
        } else {
            Gender::Unspecified
        }
    }

    /// Reads free input: white space around it is ignored, and so is case.
    pub fn parse(s: &str) -> (r: Result<Gender, GenderParseError>)
        ensures
            parsed_spec(s@) is Some ==> r == Ok::<Gender, GenderParseError>(parsed_spec(s@)->0),
            parsed_spec(s@) is None ==> r is Err && r->Err_0.text() == normalized(s@),
    {
        let t = trim(s);
        let lower = to_lowercase(t.as_str());
        if same_text(lower.as_str(), "male") {
            Ok(Gender::Male)
        } else if same_text(lower.as_str(), "female") {
            Ok(Gender::Female)
        } else if same_text(lower.as_str(), "unspecified") {
            Ok(Gender::Unspecified)
        } else {
            Err(GenderParseError::InvalidGender(lower))
        }
    }
}

impl std::str::FromStr for Gender {
    type Err = GenderParseError;

    /// Reads free input as `parse` does.
    fn from_str(s: &str) -> (r: Result<Self, Self::Err>)
        ensures
            parsed_spec(s@) is Some ==> r == Ok::<Gender, GenderParseError>(parsed_spec(s@)->0),
            parsed_spec(s@) is None ==> r is Err && r->Err_0.text() == normalized(s@),
    {
        Gender::parse(s)
    }
}

/// Reading back the stored spelling gives the same gender.
pub proof fn lemma_db_round_trip(g: Gender)
    ensures
        from_db_spec(db_name(g)) == g,
{
    reveal_strlit("male");
    reveal_strlit("female");
    reveal_strlit("unspecified");
    assert("male"@ != "female"@ && "male"@ != "unspecified"@ && "female"@ != "unspecified"@) by {
        assert("male"@.len() == 4 && "female"@.len() == 6 && "unspecified"@.len() == 11);
    }
}

/// Reading back the shown spelling, as the gender menu does, gives the
/// same gender.
pub proof fn lemma_display_round_trip(g: Gender)
    ensures
        from_display_spec(display_name_spec(g)) == g,
{
    reveal_strlit("Male");
    reveal_strlit("Female");
    reveal_strlit("Choose not to specify");
    assert("Male"@ != "Female"@ && "Male"@ != "Choose not to specify"@ && "Female"@
        != "Choose not to specify"@) by {
        assert("Male"@.len() == 4 && "Female"@.len() == 6 && "Choose not to specify"@.len() == 21);
    }
}

/// Different genders are stored under different spellings.
pub proof fn lemma_db_names_distinct(g: Gender, h: Gender)
    requires
        g != h,
    ensures
        db_name(g) != db_name(h),
{
    lemma_db_round_trip(g);
    lemma_db_round_trip(h);
}

/// Free input that is a stored spelling names that gender.
pub proof fn lemma_parse_db_name(g: Gender)
    ensures
        parsed_spec(db_name(g)) == Some(g),
{
    reveal_strlit("male");
    reveal_strlit("female");
    reveal_strlit("unspecified");
    lemma_db_names_distinct(Gender::Male, Gender::Female);
    lemma_db_names_distinct(Gender::Male, Gender::Unspecified);
    lemma_db_names_distinct(Gender::Female, Gender::Unspecified);
    let s = db_name(g);
    assert(trim_start_spec(s) == s);
    assert(trim_end_spec(s) == s);
    assert(trimmed(s) == s);
    assert(all_ascii(s));
    assert(s.map_values(|c: char| ascii_lower(c)) =~= s);
    assert(normalized(s) == s);
}

/// What free input names does not change when ASCII white space (such as
/// the `\r\n` that ends a line read from a terminal) stands around it.
pub proof fn lemma_parse_ignores_ascii_space(s: Seq<char>, t: Seq<char>, u: Seq<char>)
    requires
        all_ascii_space(t),
        all_ascii_space(u),
    ensures
        parsed_spec(t + s + u) == parsed_spec(s),
        normalized(t + s + u) == normalized(s),
{
    lemma_trim_ignores_ascii_space(s, t, u);
}

/// A typed gender followed by a line ending is read as that gender: for
/// each gender, its stored spelling with `\r\n` after it parses to it.
pub proof fn lemma_parse_line_with_ending(g: Gender)
    ensures
        parsed_spec(db_name(g) + seq!['\r', '\n']) == Some(g),
{
    let e = seq!['\r', '\n'];
    assert(all_ascii_space(e)) by {
        assert forall|i: int| 0 <= i < e.len() implies crate::text::ascii_space(#[trigger] e[i]) by {}
    }
    assert(all_ascii_space(Seq::<char>::empty()));
    assert(Seq::<char>::empty() + db_name(g) + e =~= db_name(g) + e);
    lemma_parse_ignores_ascii_space(db_name(g), Seq::<char>::empty(), e);
    lemma_parse_db_name(g);
}

} // verus!
