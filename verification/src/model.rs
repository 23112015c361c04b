//! The data that the profile views read and edit.
use vstd::prelude::*;

verus! {

/// How often someone drinks, smokes, and so on.
#[derive(Clone, Copy, PartialEq, Eq, Structural, Debug)]
pub enum Frequency {
    Never,
    Rarely,
    Often,
    YesPlease,
}

/// What a user decided about another user's profile.
#[derive(Clone, Copy, PartialEq, Eq, Structural, Debug)]
pub enum Decision {
    Like,
    Skip,
}

/// The outcome of an edit that was sent to the server over the websocket.
#[derive(Clone, Copy, PartialEq, Eq, Structural, Debug)]
pub enum OpState {
    Success,
    Failure,
}

/// What kind of relationship someone is seeking.
#[derive(Clone, Copy, PartialEq, Eq, Structural, Debug)]
pub enum Seeking {
    LongTerm,
    LongTermOpenToShort,
    ShortTermFun,
    ShortTermOpenToLong,
    StillFiguringItOut,
}

/// The relationship type someone prefers.
#[derive(Clone, Copy, PartialEq, Eq, Structural, Debug)]
pub enum RelationshipType {
    FiguringOutMyRelationshipType,
    Monogamy,
    NonMonogamy,
}

impl Frequency {
    /// Every frequency, in the order the selects offer them.
    pub fn all() -> (r: Vec<Frequency>)
        ensures
            r@ == seq![Frequency::Never, Frequency::Rarely, Frequency::Often, Frequency::YesPlease],
    {
        let mut r: Vec<Frequency> = Vec::new();
        r.push(Frequency::Never);
        r.push(Frequency::Rarely);
        r.push(Frequency::Often);
        r.push(Frequency::YesPlease);
        r
    }
}

impl Seeking {
    /// Every answer to what one seeks, in the order the select offers them.
    pub fn all() -> (r: Vec<Seeking>)
        ensures
            r@ == seq![
                Seeking::LongTerm,
                Seeking::LongTermOpenToShort,
                Seeking::ShortTermFun,
                Seeking::ShortTermOpenToLong,
                Seeking::StillFiguringItOut,
            ],
    {
        let mut r: Vec<Seeking> = Vec::new();
        r.push(Seeking::LongTerm);
        r.push(Seeking::LongTermOpenToShort);
        r.push(Seeking::ShortTermFun);
        r.push(Seeking::ShortTermOpenToLong);
        r.push(Seeking::StillFiguringItOut);
        r
    }
}

impl RelationshipType {
    /// Every relationship type, in the order the select offers them.
    pub fn all() -> (r: Vec<RelationshipType>)
        ensures
            r@ == seq![
                RelationshipType::FiguringOutMyRelationshipType,
                RelationshipType::Monogamy,
                RelationshipType::NonMonogamy,
            ],
    {
        let mut r: Vec<RelationshipType> = Vec::new();
        r.push(RelationshipType::FiguringOutMyRelationshipType);
        r.push(RelationshipType::Monogamy);
        r.push(RelationshipType::NonMonogamy);
        r
    }
}

/// Children someone has and wants.
///
/// `wants` is `-1` for "doesn't know", `0` for "doesn't want", and
/// `i8::MAX` for "that many or more".
#[derive(Clone, Copy, PartialEq, Eq, Structural, Debug)]
pub struct Kids {
    pub has: Option<i8>,
    pub wants: Option<i8>,
}

/// The four habits a profile can state.
#[derive(Clone, Copy, PartialEq, Eq, Structural, Debug)]
pub struct Habits {
    pub drinking: Option<Frequency>,
    pub smoking: Option<Frequency>,
    pub marijuana: Option<Frequency>,
    pub drugs: Option<Frequency>,
}

/// Selects one of the fields of [`Habits`].
#[derive(Clone, Copy, PartialEq, Eq, Structural, Debug)]
pub enum Habit {
    Drinking,
    Smoking,
    Marijuana,
    Drugs,
}

impl Habits {
    /// The frequency stated for `habit`.
    pub open spec fn spec_get(self, habit: Habit) -> Option<Frequency> {
        match habit {
            Habit::Drinking => self.drinking,
            Habit::Smoking => self.smoking,
            Habit::Marijuana => self.marijuana,
            Habit::Drugs => self.drugs,
        }
    }

    /// These habits with `habit` set to `freq` and the others unchanged.
    pub open spec fn spec_with(self, habit: Habit, freq: Option<Frequency>) -> Habits {
        match habit {
            Habit::Drinking => Habits { drinking: freq, ..self },
            Habit::Smoking => Habits { smoking: freq, ..self },
            Habit::Marijuana => Habits { marijuana: freq, ..self },
            Habit::Drugs => Habits { drugs: freq, ..self },
        }
    }

    /// The frequency stated for `habit`.
    pub fn get(&self, habit: Habit) -> (r: Option<Frequency>)
        ensures
            r == self.spec_get(habit),
    {
        match habit {
            Habit::Drinking => self.drinking,
            Habit::Smoking => self.smoking,
            Habit::Marijuana => self.marijuana,
            Habit::Drugs => self.drugs,
        }
    }

    /// Sets the frequency of `habit`, leaving the other habits as they are.
    pub fn set(&mut self, habit: Habit, freq: Option<Frequency>)
        ensures
            *final(self) == old(self).spec_with(habit, freq),
    {
        match habit {
            Habit::Drinking => self.drinking = freq,
            Habit::Smoking => self.smoking = freq,
            Habit::Marijuana => self.marijuana = freq,
            Habit::Drugs => self.drugs = freq,
        }
    }
}

/// Each habit names its own field: reading a habit reads that field, and
/// setting it writes that field alone.
pub proof fn law_habit_names_its_field(h: Habits, f: Option<Frequency>)
    ensures
        h.spec_get(Habit::Drinking) == h.drinking,
        h.spec_get(Habit::Smoking) == h.smoking,
        h.spec_get(Habit::Marijuana) == h.marijuana,
        h.spec_get(Habit::Drugs) == h.drugs,
        h.spec_with(Habit::Drinking, f) == (Habits {
            drinking: f,
            smoking: h.smoking,
            marijuana: h.marijuana,
            drugs: h.drugs,
        }),
        h.spec_with(Habit::Smoking, f) == (Habits {
            drinking: h.drinking,
            smoking: f,
            marijuana: h.marijuana,
            drugs: h.drugs,
        }),
        h.spec_with(Habit::Marijuana, f) == (Habits {
            drinking: h.drinking,
            smoking: h.smoking,
            marijuana: f,
            drugs: h.drugs,
        }),
        h.spec_with(Habit::Drugs, f) == (Habits {
            drinking: h.drinking,
            smoking: h.smoking,
            marijuana: h.marijuana,
            drugs: f,
        }),
{
}

/// A prompt on a profile: a title, the answer, and its place among the prompts.
pub struct Prompt {
    pub id: Option<i32>,
    pub position: Option<i16>,
    pub title: String,
    pub body: String,
}

/// The mathematical value of a [`Prompt`].
pub struct PromptView {
    pub id: Option<i32>,
    pub position: Option<i16>,
    pub title: Seq<char>,
    pub body: Seq<char>,
}

impl View for Prompt {
    type V = PromptView;

    open spec fn view(&self) -> PromptView {
        PromptView { id: self.id, position: self.position, title: self.title@, body: self.body@ }
    }
}

impl Prompt {
    /// A copy of this prompt.
    pub fn duplicate(&self) -> (r: Prompt)
        ensures
            r@ == self@,
    {
        Prompt {
            id: self.id,
            position: self.position,
            title: self.title.clone(),
            body: self.body.clone(),
        }
    }
}

/// An image on a profile: the file (by URL or by its bytes), a caption and
/// its place among the images.
pub struct Image {
    pub id: Option<i32>,
    pub url: Option<String>,
    pub bytes: Option<Vec<u8>>,
    pub prompt: Option<String>,
    pub position: Option<i16>,
}

/// The mathematical value of an [`Image`].
pub struct ImageView {
    pub id: Option<i32>,
    pub url: Option<Seq<char>>,
    pub bytes: Option<Seq<u8>>,
    pub prompt: Option<Seq<char>>,
    pub position: Option<i16>,
}

/// The view of an optional string.
pub open spec fn opt_str_view(s: Option<String>) -> Option<Seq<char>> {
    match s {
        Some(s) => Some(s@),
        None => None,
    }
}

/// The view of optional bytes.
pub open spec fn opt_bytes_view(b: Option<Vec<u8>>) -> Option<Seq<u8>> {
    match b {
        Some(b) => Some(b@),
        None => None,
    }
}

impl View for Image {
    type V = ImageView;

    open spec fn view(&self) -> ImageView {
        ImageView {
            id: self.id,
            url: opt_str_view(self.url),
            bytes: opt_bytes_view(self.bytes),
            prompt: opt_str_view(self.prompt),
            position: self.position,
        }
    }
}

/// A profile as the views show it.
pub struct Person {
    pub id: Option<i32>,
    pub name: String,
    pub location: Option<String>,
    pub occupation: Option<String>,
    pub education: Option<String>,
    pub hometown: Option<String>,
    pub seeking: Option<Seeking>,
    pub relationship_type: Option<RelationshipType>,
    pub has_children: Option<bool>,
    pub kids: Option<Kids>,
    pub habits: Option<Habits>,
    pub prompts: Vec<Prompt>,
    pub images: Vec<Image>,
}

} // verus!
