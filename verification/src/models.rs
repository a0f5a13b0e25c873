//! Data model for a desired rich-presence state.
//!
//! All types here are plain immutable values: they are built by a caller,
//! read once while the wire payload is assembled, and never mutated.
//! Each exec type has a spec-level view over sequences of characters, so
//! that contracts can speak of the data mathematically.

use vstd::prelude::*;

verus! {

/// The kind of activity a presence announces.
#[derive(Debug, Clone, Copy, PartialEq, Eq, Structural)]
pub enum ActivityType {
    Playing,
    Listening,
    Watching,
    Competing,
}

/// Art assets and hover text shown with an activity: up to two
/// (image key, alt text) pairs, "large" and "small".
#[derive(Debug)]
pub struct RichPresenceAssets {
    pub large_image: Option<String>,
    pub large_text: Option<String>,
    pub small_image: Option<String>,
    pub small_text: Option<String>,
}

/// Start and/or end instants of an activity, in epoch seconds,
/// independently optional.
#[derive(Debug)]
pub struct RichPresenceTimestamps {
    pub start: Option<i64>,
    pub end: Option<i64>,
}

/// A clickable button: a label and a target URL.
#[derive(Debug)]
pub struct RichPresenceButton {
    pub label: String,
    pub url: String,
}

/// Party information: an optional id and an optional
/// `[current, max]` capacity pair.
#[derive(Debug)]
pub struct RichPresenceParty {
    pub id: Option<String>,
    pub size: Option<[i32; 2]>,
}

/// Join and spectate tokens. `match_field` is carried by the model but has
/// no slot on the wire: the payload translation never forwards it.
#[derive(Debug)]
pub struct RichPresenceSecrets {
    pub join: Option<String>,
    pub spectate: Option<String>,
    pub match_field: Option<String>,
}

/// A complete description of a desired presence state. Every field but the
/// activity kind is optional; absent fields are omitted from the payload.
#[derive(Debug)]
pub struct RichPresenceConfig {
    pub application_id: Option<String>,
    pub activity_type: ActivityType,
    pub details: Option<String>,
    pub state: Option<String>,
    pub assets: Option<RichPresenceAssets>,
    pub timestamps: Option<RichPresenceTimestamps>,
    pub buttons: Option<Vec<RichPresenceButton>>,
    pub party: Option<RichPresenceParty>,
    pub secrets: Option<RichPresenceSecrets>,
}

/// Spec-level image of `RichPresenceAssets`.
pub struct AssetsView {
    pub large_image: Option<Seq<char>>,
    pub large_text: Option<Seq<char>>,
    pub small_image: Option<Seq<char>>,
    pub small_text: Option<Seq<char>>,
}

/// Spec-level image of `RichPresenceTimestamps`.
pub struct TimestampsView {
    pub start: Option<i64>,
    pub end: Option<i64>,
}

/// Spec-level image of `RichPresenceButton`.
pub struct ButtonView {
    pub label: Seq<char>,
    pub url: Seq<char>,
}

/// Spec-level image of `RichPresenceParty`; the capacity pair becomes a
/// `(current, max)` tuple.
pub struct PartyView {
    pub id: Option<Seq<char>>,
    pub size: Option<(i32, i32)>,
}

/// Spec-level image of `RichPresenceSecrets`.
pub struct SecretsView {
    pub join: Option<Seq<char>>,
    pub spectate: Option<Seq<char>>,
    pub match_field: Option<Seq<char>>,
}

/// Spec-level image of `RichPresenceConfig`.
pub struct ConfigView {
    pub application_id: Option<Seq<char>>,
    pub activity_type: ActivityType,
    pub details: Option<Seq<char>>,
    pub state: Option<Seq<char>>,
    pub assets: Option<AssetsView>,
    pub timestamps: Option<TimestampsView>,
    pub buttons: Option<Seq<ButtonView>>,
    pub party: Option<PartyView>,
    pub secrets: Option<SecretsView>,
}

pub open spec fn opt_string_view(s: Option<String>) -> Option<Seq<char>> {
    match s {
        Some(t) => Some(t@),
        None => None,
    }
}

impl View for RichPresenceAssets {
    type V = AssetsView;

    open spec fn view(&self) -> AssetsView {
        AssetsView {
            large_image: opt_string_view(self.large_image),
            large_text: opt_string_view(self.large_text),
            small_image: opt_string_view(self.small_image),
            small_text: opt_string_view(self.small_text),
        }
    }
}

impl View for RichPresenceTimestamps {
    type V = TimestampsView;

    open spec fn view(&self) -> TimestampsView {
        TimestampsView { start: self.start, end: self.end }
    }
}

impl View for RichPresenceButton {
    type V = ButtonView;

    open spec fn view(&self) -> ButtonView {
        ButtonView { label: self.label@, url: self.url@ }
    }
}

impl View for RichPresenceParty {
    type V = PartyView;

    open spec fn view(&self) -> PartyView {
        PartyView {
            id: opt_string_view(self.id),
            size: match self.size {
                Some(s) => Some((s[0], s[1])),
                None => None,
            },
        }
    }
}

impl View for RichPresenceSecrets {
    type V = SecretsView;

    open spec fn view(&self) -> SecretsView {
        SecretsView {
            join: opt_string_view(self.join),
            spectate: opt_string_view(self.spectate),
            match_field: opt_string_view(self.match_field),
        }
    }
}

impl View for RichPresenceConfig {
    type V = ConfigView;

    open spec fn view(&self) -> ConfigView {
        ConfigView {
            application_id: opt_string_view(self.application_id),
            activity_type: self.activity_type,
            details: opt_string_view(self.details),
            state: opt_string_view(self.state),
            assets: match self.assets {
                Some(a) => Some(a@),
                None => None,
            },
            timestamps: match self.timestamps {
                Some(t) => Some(t@),
                None => None,
            },
            buttons: match self.buttons {
                Some(b) => Some(b@.map_values(|x: RichPresenceButton| x@)),
                None => None,
            },
            party: match self.party {
                Some(p) => Some(p@),
                None => None,
            },
            secrets: match self.secrets {
                Some(s) => Some(s@),
                None => None,
            },
        }
    }
}

impl Clone for RichPresenceAssets {
    /// A clone carries the same four asset strings.
    fn clone(&self) -> (res: Self)
        ensures
            res@ == self@,
    {
        RichPresenceAssets {
            large_image: clone_opt_string(&self.large_image),
            large_text: clone_opt_string(&self.large_text),
            small_image: clone_opt_string(&self.small_image),
            small_text: clone_opt_string(&self.small_text),
        }
    }
}

impl Clone for RichPresenceTimestamps {
    /// A clone carries the same instants.
    fn clone(&self) -> (res: Self)
        ensures
            res@ == self@,
    {
        RichPresenceTimestamps { start: self.start, end: self.end }
    }
}

impl Clone for RichPresenceButton {
    /// A clone carries the same label and URL.
    fn clone(&self) -> (res: Self)
        ensures
            res@ == self@,
    {
        RichPresenceButton { label: self.label.clone(), url: self.url.clone() }
    }
}

impl Clone for RichPresenceParty {
    /// A clone carries the same id and capacity pair.
    fn clone(&self) -> (res: Self)
        ensures
            res@ == self@,
    {
        RichPresenceParty { id: clone_opt_string(&self.id), size: self.size }
    }
}

impl Clone for RichPresenceSecrets {
    /// A clone carries the same three tokens.
    fn clone(&self) -> (res: Self)
        ensures
            res@ == self@,
    {
        RichPresenceSecrets {
            join: clone_opt_string(&self.join),
            spectate: clone_opt_string(&self.spectate),
            match_field: clone_opt_string(&self.match_field),
        }
    }
}

impl Clone for RichPresenceConfig {
    /// A clone carries the same fields, nested blocks included.
    fn clone(&self) -> (res: Self)
        ensures
            res@ == self@,
    {
        RichPresenceConfig {
            application_id: clone_opt_string(&self.application_id),
            activity_type: self.activity_type,
            details: clone_opt_string(&self.details),
            state: clone_opt_string(&self.state),
            assets: match &self.assets {
                Some(a) => Some(a.clone()),
                None => None,
            },
            timestamps: match &self.timestamps {
                Some(t) => Some(t.clone()),
                None => None,
            },
            buttons: match &self.buttons {
                Some(b) => Some(clone_buttons(b)),
                None => None,
            },
            party: match &self.party {
                Some(p) => Some(p.clone()),
                None => None,
            },
            secrets: match &self.secrets {
                Some(s) => Some(s.clone()),
                None => None,
            },
        }
    }
}

/// Clones an optional string, keeping its view.
pub fn clone_opt_string(s: &Option<String>) -> (res: Option<String>)
    ensures
        opt_string_view(res) == opt_string_view(*s),
{
    match s {
        Some(t) => Some(t.clone()),
        None => None,
    }
}

/// Clones a button list, keeping every button's view and the list order.
pub fn clone_buttons(bs: &Vec<RichPresenceButton>) -> (res: Vec<RichPresenceButton>)
    ensures
        res@.map_values(|x: RichPresenceButton| x@) == bs@.map_values(
            |x: RichPresenceButton| x@,
        ),
{
    let mut res: Vec<RichPresenceButton> = Vec::new();
    let mut i: usize = 0;
    while i < bs.len()
        invariant
            i <= bs.len(),
            res@.len() == i,
            forall|j: int| 0 <= j < i ==> res@[j]@ == bs@[j]@,
        decreases bs.len() - i,
    {
        res.push(bs[i].clone());
        i += 1;
    }
    proof {
        assert(res@.map_values(|x: RichPresenceButton| x@) =~= bs@.map_values(
            |x: RichPresenceButton| x@,
        ));
    }
    res
}

} // verus!
