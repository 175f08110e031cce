use vstd::prelude::*;

verus! {

/// A player's appearance: one integer per equipment slot.
#[derive(Debug, Clone)]
pub struct Player {
    pub name: String,
    pub head: i32,
    pub body: i32,
    pub cape: i32,
    pub legs: i32,
    pub neck: i32,
    pub hand: i32,
    pub ring: i32,
    pub feet: i32,
    pub weap: i32,
    pub shld: i32,
    pub jaws: i32,
    pub hair: i32,
}

/// What a `Player` means: its name and its slot values in a fixed order.
pub struct PlayerView {
    pub name: Seq<char>,
    pub looks: Seq<i32>,
}

impl View for Player {
    type V = PlayerView;

    open spec fn view(&self) -> PlayerView {
        PlayerView { name: self.name@, looks: self.looks() }
    }
}

impl Player {
    /// The slot values, head first and hair last.
    pub open spec fn looks(&self) -> Seq<i32> {
        seq![
            self.head, self.body, self.cape, self.legs, self.neck, self.hand,
            self.ring, self.feet, self.weap, self.shld, self.jaws, self.hair,
        ]
    }

    /// A copy of this player, field for field.
    pub fn copied(&self) -> (r: Player)
        ensures
            r@ == self@,
    {
        Player {
            name: self.name.clone(),
            head: self.head,
            body: self.body,
            cape: self.cape,
            legs: self.legs,
            neck: self.neck,
            hand: self.hand,
            ring: self.ring,
            feet: self.feet,
            weap: self.weap,
            shld: self.shld,
            jaws: self.jaws,
            hair: self.hair,
        }
    }

    /// The same appearance worn under another name.
    pub fn renamed(&self, name: String) -> (r: Player)
        ensures
            r@.name == name@,
            r@.looks == self@.looks,
    {
        Player {
            name,
            head: self.head,
            body: self.body,
            cape: self.cape,
            legs: self.legs,
            neck: self.neck,
            hand: self.hand,
            ring: self.ring,
            feet: self.feet,
            weap: self.weap,
            shld: self.shld,
            jaws: self.jaws,
            hair: self.hair,
        }
    }
}

} // verus!
