//! Remote control of an entity's transform: which properties a tagged entity
//! offers, under which labels, and which part of the transform an event on
//! each aspect moves.
use crate::text::{decimal, push_chars, string_from_chars};
use vstd::prelude::*;

verus! {

/// Aspect of the translation control.
pub const POSITION_ASPECT: u32 = 0;

/// Aspect of the look-at control.
pub const LOOK_AT_ASPECT: u32 = 1;

/// Aspect of the scale control.
pub const SCALE_ASPECT: u32 = 2;

pub const ENTITY_LABEL_PREFIX: &'static str = "Entity ";

pub const POSITION_SUFFIX: &'static str = " Position";

pub const LOOK_AT_SUFFIX: &'static str = " Look At Position";

pub const SCALE_SUFFIX: &'static str = " Scale";

/// Which parts of an entity's transform are offered to remote control.
#[derive(PartialEq, Eq, Structural, Debug, Clone, Copy)]
pub struct RemoteControlTransform {
    /// Translation controls.
    pub position: bool,
    /// Look-at controls (a world-space target).
    pub rotation: bool,
    /// Scale controls.
    pub scale: bool,
}

impl Default for RemoteControlTransform {
    /// Position and look-at, no scale.
    fn default() -> (r: Self)
        ensures
            r == (RemoteControlTransform { position: true, rotation: true, scale: false }),
    {
        RemoteControlTransform { position: true, rotation: true, scale: false }
    }
}

/// The part of the transform that an aspect moves.
#[derive(PartialEq, Eq, Structural, Debug, Clone, Copy)]
pub enum TransformAspect {
    Position,
    LookAt,
    Scale,
}

pub open spec fn aspect_of(aspect_id: u32) -> Option<TransformAspect> {
    if aspect_id == POSITION_ASPECT {
        Some(TransformAspect::Position)
    } else if aspect_id == LOOK_AT_ASPECT {
        Some(TransformAspect::LookAt)
    } else if aspect_id == SCALE_ASPECT {
        Some(TransformAspect::Scale)
    } else {
        None
    }
}

/// The part of the transform that an event on `aspect_id` moves; other
/// aspects are ignored.
pub fn transform_aspect(aspect_id: u32) -> (r: Option<TransformAspect>)
    ensures
        r == aspect_of(aspect_id),
{
    if aspect_id == POSITION_ASPECT {
        Some(TransformAspect::Position)
    } else if aspect_id == LOOK_AT_ASPECT {
        Some(TransformAspect::LookAt)
    } else if aspect_id == SCALE_ASPECT {
        Some(TransformAspect::Scale)
    } else {
        None
    }
}

// MARK: Labels

/// Bits that stand for an entity: bevy's `Entity::from_bits` panics when
/// the low half (the stored index) is zero.
pub open spec fn valid_entity_bits(bits: u64) -> bool {
    bits % 0x1_0000_0000 != 0
}

/// How bevy displays the entity with these bits: `PLACEHOLDER` for its
/// placeholder entity (bits 1), else the index (`u32::MAX` minus the low
/// half), `v` and the generation (the high half).
pub open spec fn entity_display(bits: u64) -> Seq<char> {
    if bits == 1 {
        "PLACEHOLDER"@
    } else {
        decimal((u32::MAX - bits % 0x1_0000_0000) as nat) + seq!['v'] + decimal(
            (bits / 0x1_0000_0000) as nat,
        )
    }
}

/// bevy's `Entity::from_bits` followed by its `Display`: the text of the
/// entity with these bits, as `entity_display` states it.
#[verifier::external_body]
fn entity_text(bits: u64) -> (s: String)
    requires
        valid_entity_bits(bits),
    ensures
        s@ == entity_display(bits),
{
    bevy::ecs::entity::Entity::from_bits(bits).to_string()
}

/// An entity's label: its name, or `Entity` and the entity's text, then
/// `suffix`.
pub open spec fn entity_label_text(name: Option<Seq<char>>, entity: u64, suffix: Seq<char>) -> Seq<
    char,
> {
    match name {
        Some(n) => n + suffix,
        None => ENTITY_LABEL_PREFIX@ + entity_display(entity) + suffix,
    }
}

pub open spec fn opt_view(name: Option<&str>) -> Option<Seq<char>> {
    match name {
        Some(n) => Some(n@),
        None => None,
    }
}

/// The label of the entity with bits `entity`, with `suffix`.
pub fn entity_label(name: Option<&str>, entity: u64, suffix: &str) -> (l: String)
    requires
        valid_entity_bits(entity),
    ensures
        l@ == entity_label_text(opt_view(name), entity, suffix@),
{
    let mut out: Vec<char> = Vec::new();
    match name {
        Some(n) => push_chars(&mut out, n),
        None => {
            push_chars(&mut out, ENTITY_LABEL_PREFIX);
            let text = entity_text(entity);
            push_chars(&mut out, text.as_str());
        },
    }
    push_chars(&mut out, suffix);
    string_from_chars(out.as_slice())
}

/// Properties as aspect and label text.
pub open spec fn labeled_view(props: Seq<(u32, String)>) -> Seq<(u32, Seq<char>)> {
    props.map_values(|p: (u32, String)| (p.0, p.1@))
}

/// The transform properties an entity offers, in this order: position,
/// look-at, scale, each only when enabled.
pub open spec fn transform_properties_spec(
    opts: RemoteControlTransform,
    name: Option<Seq<char>>,
    entity: u64,
) -> Seq<(u32, Seq<char>)> {
    (if opts.position {
        seq![(POSITION_ASPECT, entity_label_text(name, entity, POSITION_SUFFIX@))]
    } else {
        seq![]
    }) + (if opts.rotation {
        seq![(LOOK_AT_ASPECT, entity_label_text(name, entity, LOOK_AT_SUFFIX@))]
    } else {
        seq![]
    }) + (if opts.scale {
        seq![(SCALE_ASPECT, entity_label_text(name, entity, SCALE_SUFFIX@))]
    } else {
        seq![]
    })
}

/// The transform properties that `opts` enables for the entity with bits
/// `entity`.
pub fn transform_properties(
    opts: &RemoteControlTransform,
    name: Option<&str>,
    entity: u64,
) -> (props: Vec<(u32, String)>)
    requires
        valid_entity_bits(entity),
    ensures
        labeled_view(props@) == transform_properties_spec(*opts, opt_view(name), entity),
{
    let ghost nv = opt_view(name);
    let mut props: Vec<(u32, String)> = Vec::new();
    if opts.position {
        props.push((POSITION_ASPECT, entity_label(name, entity, POSITION_SUFFIX)));
    }
    let ghost first = labeled_view(props@);
    assert(first =~= (if opts.position {
        seq![(POSITION_ASPECT, entity_label_text(nv, entity, POSITION_SUFFIX@))]
    } else {
        seq![]
    }));
    if opts.rotation {
        props.push((LOOK_AT_ASPECT, entity_label(name, entity, LOOK_AT_SUFFIX)));
    }
    let ghost second = labeled_view(props@);
    assert(second =~= first + (if opts.rotation {
        seq![(LOOK_AT_ASPECT, entity_label_text(nv, entity, LOOK_AT_SUFFIX@))]
    } else {
        seq![]
    }));
    if opts.scale {
        props.push((SCALE_ASPECT, entity_label(name, entity, SCALE_SUFFIX)));
    }
    assert(labeled_view(props@) =~= second + (if opts.scale {
        seq![(SCALE_ASPECT, entity_label_text(nv, entity, SCALE_SUFFIX@))]
    } else {
        seq![]
    }));
    props
}

/// Some property in `props` has aspect `aspect`.
pub open spec fn offers(props: Seq<(u32, Seq<char>)>, aspect: u32) -> bool {
    exists|i: int| 0 <= i < props.len() && (#[trigger] props[i]).0 == aspect
}

/// Each transform control is offered exactly when it is enabled, whatever
/// the others are, once, under the entity's label with its own suffix; and
/// nothing else is offered.
pub proof fn lemma_transform_properties_follow_options(
    opts: RemoteControlTransform,
    name: Option<Seq<char>>,
    entity: u64,
)
    ensures
        offers(transform_properties_spec(opts, name, entity), POSITION_ASPECT) == opts.position,
        offers(transform_properties_spec(opts, name, entity), LOOK_AT_ASPECT) == opts.rotation,
        offers(transform_properties_spec(opts, name, entity), SCALE_ASPECT) == opts.scale,
        transform_properties_spec(opts, name, entity).len() == (if opts.position {
            1int
        } else {
            0
        }) + (if opts.rotation {
            1int
        } else {
            0
        }) + (if opts.scale {
            1int
        } else {
            0
        }),
        forall|i: int|
            0 <= i < transform_properties_spec(opts, name, entity).len() ==> {
                let p = #[trigger] transform_properties_spec(opts, name, entity)[i];
                ||| p == (POSITION_ASPECT, entity_label_text(name, entity, POSITION_SUFFIX@))
                ||| p == (LOOK_AT_ASPECT, entity_label_text(name, entity, LOOK_AT_SUFFIX@))
                ||| p == (SCALE_ASPECT, entity_label_text(name, entity, SCALE_SUFFIX@))
            },
{
    let props = transform_properties_spec(opts, name, entity);
    let a: Seq<(u32, Seq<char>)> = if opts.position {
        seq![(POSITION_ASPECT, entity_label_text(name, entity, POSITION_SUFFIX@))]
    } else {
        seq![]
    };
    let b: Seq<(u32, Seq<char>)> = if opts.rotation {
        seq![(LOOK_AT_ASPECT, entity_label_text(name, entity, LOOK_AT_SUFFIX@))]
    } else {
        seq![]
    };
    let c: Seq<(u32, Seq<char>)> = if opts.scale {
        seq![(SCALE_ASPECT, entity_label_text(name, entity, SCALE_SUFFIX@))]
    } else {
        seq![]
    };
    assert(props =~= a + b + c);
    let na = a.len() as int;
    let nb = b.len() as int;
    assert forall|i: int| 0 <= i < props.len() implies (i < na ==> #[trigger] props[i] == a[i]) && (
    na <= i < na + nb ==> props[i] == b[i - na]) && (na + nb <= i ==> props[i] == c[i - na - nb])
        by {
    }
    if opts.position {
        assert(props[0].0 == POSITION_ASPECT);
    }
    if opts.rotation {
        assert(props[na].0 == LOOK_AT_ASPECT);
    }
    if opts.scale {
        assert(props[na + nb].0 == SCALE_ASPECT);
    }
}

} // verus!
