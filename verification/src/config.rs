use vstd::prelude::*;

verus! {

/// Modifiers that change how a level is played.
#[derive(Debug, Clone, Copy, PartialEq, Eq, Structural)]
pub struct LevelModifiers {
    /// Play through the level without player input.
    pub clean_auto: bool,
    /// You cannot fail the level.
    pub nofail: bool,
    /// No telegraphs.
    pub sudden: bool,
    /// Don't render lights.
    pub hidden: bool,
}

/// A modifier that the player can toggle.
#[derive(Debug, Clone, Copy, PartialEq, Eq, Structural)]
pub enum Modifier {
    NoFail,
    Sudden,
    Hidden,
}

impl Modifier {
    /// All modifiers, in the order they are shown.
    pub fn all() -> (res: Vec<Modifier>)
        ensures
            res@ == seq![Modifier::NoFail, Modifier::Sudden, Modifier::Hidden],
    {
        let mut res = Vec::new();
        res.push(Modifier::NoFail);
        res.push(Modifier::Sudden);
        res.push(Modifier::Hidden);
        assert(res@ =~= seq![Modifier::NoFail, Modifier::Sudden, Modifier::Hidden]);
        res
    }

    /// The displayed name of the modifier.
    pub fn name(&self) -> (res: &'static str)
        ensures
            res@ == (match self {
                Modifier::NoFail => "Nofail"@,
                Modifier::Sudden => "Sudden"@,
                Modifier::Hidden => "Hidden"@,
            }),
    {
        match self {
            Modifier::NoFail => "Nofail",
            Modifier::Sudden => "Sudden",
            Modifier::Hidden => "Hidden",
        }
    }
}

impl LevelModifiers {
    /// Whether the modifier is on.
    pub open spec fn is_on(self, modifier: Modifier) -> bool {
        match modifier {
            Modifier::NoFail => self.nofail,
            Modifier::Sudden => self.sudden,
            Modifier::Hidden => self.hidden,
        }
    }

    /// Whether the modifier is on.
    pub fn get(&self, modifier: Modifier) -> (res: bool)
        ensures
            res == self.is_on(modifier),
    {
        match modifier {
            Modifier::NoFail => self.nofail,
            Modifier::Sudden => self.sudden,
            Modifier::Hidden => self.hidden,
        }
    }

    /// Turn the modifier on or off, leaving the others as they are.
    pub fn set(&mut self, modifier: Modifier, value: bool)
        ensures
            final(self).is_on(modifier) == value,
            final(self).clean_auto == old(self).clean_auto,
            forall|other: Modifier|
                other != modifier ==> final(self).is_on(other) == old(self).is_on(other),
    {
        match modifier {
            Modifier::NoFail => self.nofail = value,
            Modifier::Sudden => self.sudden = value,
            Modifier::Hidden => self.hidden = value,
        }
    }
}

impl Default for LevelModifiers {
    fn default() -> (res: Self)
        ensures
            !res.clean_auto && !res.nofail && !res.sudden && !res.hidden,
    {
        LevelModifiers { clean_auto: false, nofail: false, sudden: false, hidden: false }
    }
}

} // verus!
