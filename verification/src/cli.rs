//! The command surface and the fixed offset tables: which materials and ammo
//! pools exist, the byte offset of each stored value relative to the image
//! base, and the value an ammo pool is set to when made effectively
//! infinite. The tables are constants of one particular target build; the
//! accessor itself is reusable across different tables.

use vstd::prelude::*;

verus! {

/// The parsed command line: exactly one subcommand.
pub struct Cli {
    pub command: Subcommands,
}

/// The operations the tool performs on the located process.
#[derive(Clone, Copy, Debug, PartialEq, Eq, Structural)]
pub enum Subcommands {
    /// Sets a material to a specific value.
    SetValue { material: Material, value: u32 },
    /// Adds a specific value to a material, with checked arithmetic.
    Add { material: Material, value: u32 },
    /// Subtracts a specific value from a material, with checked arithmetic.
    Subtract { material: Material, value: u32 },
    /// Sets every stored value of an ammo type to the infinite-ammo value.
    Infinite { ammo_type: AmmoType },
}

/// The materials whose stored values the tool can change.
#[allow(non_camel_case_types)]
#[derive(Clone, Copy, Debug, PartialEq, Eq, Structural)]
pub enum Material {
    /// blessing
    b,
    /// honor
    h,
    /// essence
    e,
    /// sword tokens
    st,
    /// bow tokens
    bt,
    /// charm tokens
    ct,
    /// gw1 token
    gw1,
    /// gw2 token
    gw2,
}

impl Material {
    /* Static offsets of the stored material values */
    pub const ESSENCE_OFFSET: u64 = 0x1cdbc74;

    pub const HONOR_OFFSET: u64 = 0x1cdbc78;

    pub const BLESSING_OFFSET: u64 = 0x1cdbc7c;

    pub const SWORD_TOKEN_OFFSET: u64 = 0x1cdbc80;

    pub const BOW_TOKEN_OFFSET: u64 = 0x1cdbc84;

    pub const CHARM_TOKEN_OFFSET: u64 = 0x1cdbc88;

    pub const GW1_TOKEN_OFFSET: u64 = 0x1cdbc8c;

    pub const GW2_TOKEN_OFFSET: u64 = 0x1cdbc90;

    /// The offset of this material's stored value.
    pub open spec fn spec_offset(&self) -> u64 {
        match self {
            Material::b => Self::BLESSING_OFFSET,
            Material::h => Self::HONOR_OFFSET,
            Material::e => Self::ESSENCE_OFFSET,
            Material::st => Self::SWORD_TOKEN_OFFSET,
            Material::bt => Self::BOW_TOKEN_OFFSET,
            Material::ct => Self::CHARM_TOKEN_OFFSET,
            Material::gw1 => Self::GW1_TOKEN_OFFSET,
            Material::gw2 => Self::GW2_TOKEN_OFFSET,
        }
    }

    /// Returns the appropriate offset for the given material.
    pub fn offset(&self) -> (r: u64)
        ensures
            r == self.spec_offset(),
    {
        match self {
            Material::b => Self::BLESSING_OFFSET,
            Material::h => Self::HONOR_OFFSET,
            Material::e => Self::ESSENCE_OFFSET,
            Material::st => Self::SWORD_TOKEN_OFFSET,
            Material::bt => Self::BOW_TOKEN_OFFSET,
            Material::ct => Self::CHARM_TOKEN_OFFSET,
            Material::gw1 => Self::GW1_TOKEN_OFFSET,
            Material::gw2 => Self::GW2_TOKEN_OFFSET,
        }
    }
}

/// The ammo pools that can be set to the infinite-ammo value.
#[derive(Clone, Copy, Debug, PartialEq, Eq, Structural)]
pub enum AmmoType {
    Arrows,
    Blowgun,
    Throwable,
}

/// The value written to every stored slot of an ammo pool to make it
/// effectively infinite.
pub const INFINITE_AMMO_VALUE: u32 = 999999;

impl AmmoType {
    /* Static offsets of the stored ammo values */
    pub const ARROW_X_OFFSET: u64 = 0x1cdc3c8;

    pub const ARROW_Y_OFFSET: u64 = 0x1cdc3cc;

    pub const BLOWGUN_X_OFFSET: u64 = 0x1cdc3e0;

    pub const BLOWGUN_Y_OFFSET: u64 = 0x1cdc3e4;

    pub const BLOWGUN_B_OFFSET: u64 = 0x1cdc3e8;

    pub const THROWABLE_Y_OFFSET: u64 = 0x1cdc3f0;

    pub const THROWABLE_B_OFFSET: u64 = 0x1cdc3fc;

    pub const THROWABLE_X_OFFSET: u64 = 0x1cdc400;

    /// The offsets of every stored value of this ammo pool.
    pub open spec fn spec_offsets(&self) -> Seq<u64> {
        match self {
            AmmoType::Arrows => seq![Self::ARROW_X_OFFSET, Self::ARROW_Y_OFFSET],
            AmmoType::Blowgun => seq![
                Self::BLOWGUN_X_OFFSET,
                Self::BLOWGUN_Y_OFFSET,
                Self::BLOWGUN_B_OFFSET,
            ],
            AmmoType::Throwable => seq![
                Self::THROWABLE_X_OFFSET,
                Self::THROWABLE_Y_OFFSET,
                Self::THROWABLE_B_OFFSET,
            ],
        }
    }

    /// The offsets at which a pool of this ammo type stores its values.
    pub fn offsets(&self) -> (r: Vec<u64>)
        ensures
            r@ == self.spec_offsets(),
    {
        let mut r: Vec<u64> = Vec::new();
        match self {
            AmmoType::Arrows => {
                r.push(Self::ARROW_X_OFFSET);
                r.push(Self::ARROW_Y_OFFSET);
            },
            AmmoType::Blowgun => {
                r.push(Self::BLOWGUN_X_OFFSET);
                r.push(Self::BLOWGUN_Y_OFFSET);
                r.push(Self::BLOWGUN_B_OFFSET);
            },
            AmmoType::Throwable => {
                r.push(Self::THROWABLE_X_OFFSET);
                r.push(Self::THROWABLE_Y_OFFSET);
                r.push(Self::THROWABLE_B_OFFSET);
            },
        }
        assert(r@ =~= self.spec_offsets());
        r
    }
}

} // verus!
