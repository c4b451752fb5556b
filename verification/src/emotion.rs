//! The closed catalogue of emotions and their fixed display data.

use vstd::prelude::*;
use vstd::string::StringExecFns;
use crate::text::case::lowercase_of;

verus! {

/// The art of `Emotion::Analytical`.
pub const ANALYTICAL_ART: &'static str = r#"
     ∧_∧
   ( ･ω･)つ━☆
   (つ　 /
    |  (⌒)
    し⌒"#;

/// The art of `Emotion::Helpful`.
pub const HELPFUL_ART: &'static str = r#"
     ∧_∧
   ( ＾ω＾)b
   (つ　 /
    |  (⌒)
    し⌒"#;

/// The art of `Emotion::Curious`.
pub const CURIOUS_ART: &'static str = r#"
     ∧_∧
   ( ･o･)?
   (つ　 /
    |  (⌒)
    し⌒"#;

/// The art of `Emotion::Uncertain`.
pub const UNCERTAIN_ART: &'static str = r#"
    (・_・;)
      💧"#;

/// The art of `Emotion::Apologetic`.
pub const APOLOGETIC_ART: &'static str = r#"
     ∧_∧
   m(_ _)m"#;

/// The art of `Emotion::Excited`.
pub const EXCITED_ART: &'static str = r#"
     ∧_∧
   (★ω★)
   (つ　 /
    |  (⌒)
    し⌒"#;

/// One of the six moods a tag can name.
#[derive(Debug, Clone, Copy, PartialEq, Eq, Structural)]
pub enum Emotion {
    Analytical,
    Helpful,
    Curious,
    Uncertain,
    Apologetic,
    Excited,
}

impl Emotion {
    /// The canonical lower-case identifier of the emotion.
    pub open spec fn name(self) -> Seq<char> {
        match self {
            Emotion::Analytical => "analytical"@,
            Emotion::Helpful => "helpful"@,
            Emotion::Curious => "curious"@,
            Emotion::Uncertain => "uncertain"@,
            Emotion::Apologetic => "apologetic"@,
            Emotion::Excited => "excited"@,
        }
    }

    /// The display title of the emotion.
    pub open spec fn title_text(self) -> Seq<char> {
        match self {
            Emotion::Analytical => "Analytical"@,
            Emotion::Helpful => "Helpful"@,
            Emotion::Curious => "Curious"@,
            Emotion::Uncertain => "Uncertain"@,
            Emotion::Apologetic => "Apologetic"@,
            Emotion::Excited => "Excited"@,
        }
    }

    /// The ASCII-art block of the emotion, with its leading blank line.
    pub open spec fn art_text(self) -> Seq<char> {
        match self {
            Emotion::Analytical => ANALYTICAL_ART@,
            Emotion::Helpful => HELPFUL_ART@,
            Emotion::Curious => CURIOUS_ART@,
            Emotion::Uncertain => UNCERTAIN_ART@,
            Emotion::Apologetic => APOLOGETIC_ART@,
            Emotion::Excited => EXCITED_ART@,
        }
    }

    /// The emotion whose canonical identifier is exactly `name`, if any.
    pub open spec fn named(name: Seq<char>) -> Option<Emotion> {
        if name == Emotion::Analytical.name() {
            Some(Emotion::Analytical)
        } else if name == Emotion::Helpful.name() {
            Some(Emotion::Helpful)
        } else if name == Emotion::Curious.name() {
            Some(Emotion::Curious)
        } else if name == Emotion::Uncertain.name() {
            Some(Emotion::Uncertain)
        } else if name == Emotion::Apologetic.name() {
            Some(Emotion::Apologetic)
        } else if name == Emotion::Excited.name() {
            Some(Emotion::Excited)
        } else {
            None
        }
    }

    /// Finds the emotion whose canonical identifier is exactly `name`: no
    /// letter may differ in case, and nothing is trimmed.
    pub fn from_name(name: &str) -> (r: Option<Emotion>)
        ensures
            r == Emotion::named(name@),
    {
        let owned = name.to_owned();
        if owned == String::from_str("analytical") {
            Some(Emotion::Analytical)
        } else if owned == String::from_str("helpful") {
            Some(Emotion::Helpful)
        } else if owned == String::from_str("curious") {
            Some(Emotion::Curious)
        } else if owned == String::from_str("uncertain") {
            Some(Emotion::Uncertain)
        } else if owned == String::from_str("apologetic") {
            Some(Emotion::Apologetic)
        } else if owned == String::from_str("excited") {
            Some(Emotion::Excited)
        } else {
            None
        }
    }

    /// Finds the emotion that `s` names, whatever the case of its letters:
    /// `s` is lower-cased and then looked up. Nothing is trimmed.
    pub fn from_str(s: &str) -> (r: Option<Emotion>)
        ensures
            r == Emotion::named(lowercase_of(s@)),
    {
        let lowered = s.to_lowercase();
        Emotion::from_name(lowered.as_str())
    }

    /// The display title of the emotion.
    pub fn title(&self) -> (r: &'static str)
        ensures
            r@ == self.title_text(),
    {
        match self {
            Emotion::Analytical => "Analytical",
            Emotion::Helpful => "Helpful",
            Emotion::Curious => "Curious",
            Emotion::Uncertain => "Uncertain",
            Emotion::Apologetic => "Apologetic",
            Emotion::Excited => "Excited",
        }
    }

    /// The ASCII-art block of the emotion.
    pub fn art(&self) -> (r: &'static str)
        ensures
            r@ == self.art_text(),
    {
        match self {
            Emotion::Analytical => ANALYTICAL_ART,
            Emotion::Helpful => HELPFUL_ART,
            Emotion::Curious => CURIOUS_ART,
            Emotion::Uncertain => UNCERTAIN_ART,
            Emotion::Apologetic => APOLOGETIC_ART,
            Emotion::Excited => EXCITED_ART,
        }
    }

    /// Looking up by name inverts `name`: every emotion is found under its
    /// own identifier, and under nothing else.
    pub proof fn lemma_named_inverts_name(name: Seq<char>, emotion: Emotion)
        ensures
            Emotion::named(emotion.name()) == Some(emotion),
            Emotion::named(name) == Some(emotion) <==> name == emotion.name(),
    {
        reveal_strlit("analytical");
        reveal_strlit("helpful");
        reveal_strlit("curious");
        reveal_strlit("uncertain");
        reveal_strlit("apologetic");
        reveal_strlit("excited");
        // No two identifiers are the same: they differ in length, or else in
        // one of their first two letters.
        assert("analytical"@.len() == 10 && "apologetic"@.len() == 10);
        assert("helpful"@.len() == 7 && "curious"@.len() == 7 && "excited"@.len() == 7);
        assert("uncertain"@.len() == 9);
        assert("analytical"@[1] != "apologetic"@[1]);
        assert("helpful"@[0] != "curious"@[0]);
        assert("helpful"@[0] != "excited"@[0]);
        assert("curious"@[0] != "excited"@[0]);
    }

    /// Every title is the emotion's identifier with a capital first letter.
    pub proof fn lemma_title_capitalises_name(self)
        ensures
            'a' <= self.name()[0] <= 'z',
            self.title_text()[0] == (self.name()[0] as u8 - 32) as char,
            self.title_text().len() == self.name().len(),
            self.title_text().drop_first() == self.name().drop_first(),
    {
        reveal_strlit("analytical");
        reveal_strlit("helpful");
        reveal_strlit("curious");
        reveal_strlit("uncertain");
        reveal_strlit("apologetic");
        reveal_strlit("excited");
        reveal_strlit("Analytical");
        reveal_strlit("Helpful");
        reveal_strlit("Curious");
        reveal_strlit("Uncertain");
        reveal_strlit("Apologetic");
        reveal_strlit("Excited");
    }
}

} // verus!
