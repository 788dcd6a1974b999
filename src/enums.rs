//! Enumerations shared by accounts, tasks and templates.
use vstd::prelude::*;

verus! {

/// Account tier, ordered `L0 < L1 < L2 < L3`.
#[derive(Clone, Copy, Debug, PartialEq, Eq, Structural)]
pub enum ProductEdition {
    L0,
    L1,
    L2,
    L3,
}

impl ProductEdition {
    /// Position of the tier in the order `L0 < L1 < L2 < L3`.
    pub open spec fn spec_rank(self) -> nat {
        match self {
            ProductEdition::L0 => 0,
            ProductEdition::L1 => 1,
            ProductEdition::L2 => 2,
            ProductEdition::L3 => 3,
        }
    }

    /// The higher of two tiers.
    pub open spec fn spec_max(self, other: ProductEdition) -> ProductEdition {
        if self.spec_rank() >= other.spec_rank() {
            self
        } else {
            other
        }
    }

    pub fn rank(&self) -> (r: u8)
        ensures
            r as nat == self.spec_rank(),
    {
        match self {
            ProductEdition::L0 => 0,
            ProductEdition::L1 => 1,
            ProductEdition::L2 => 2,
            ProductEdition::L3 => 3,
        }
    }

    /// Whether this tier is `level` or above it.
    pub fn at_least(&self, level: ProductEdition) -> (r: bool)
        ensures
            r == (self.spec_rank() >= level.spec_rank()),
    {
        self.rank() >= level.rank()
    }

    /// The higher of `self` and `other`.
    pub fn max(self, other: ProductEdition) -> (r: ProductEdition)
        ensures
            r == self.spec_max(other),
    {
        if self.rank() >= other.rank() {
            self
        } else {
            other
        }
    }

    /// The tier's name, `"L0"` to `"L3"`.
    pub fn as_str(&self) -> (r: &'static str)
        ensures
            r@ == match self {
                ProductEdition::L0 => "L0"@,
                ProductEdition::L1 => "L1"@,
                ProductEdition::L2 => "L2"@,
                ProductEdition::L3 => "L3"@,
            },
    {
        match self {
            ProductEdition::L0 => "L0",
            ProductEdition::L1 => "L1",
            ProductEdition::L2 => "L2",
            ProductEdition::L3 => "L3",
        }
    }
}

/// Which engine runs a task.
#[derive(Clone, Copy, Debug, PartialEq, Eq, Structural)]
pub enum SchedulerType {
    Browser,
    Fast,
}

/// Where a task's results are written.
#[derive(Clone, Copy, Debug, PartialEq, Eq, Structural)]
pub enum StoreType {
    MongoDB,
    RDB,
}

/// Lifecycle state of one task run.
#[derive(Clone, Copy, Debug, PartialEq, Eq, Structural)]
pub enum TaskStatus {
    Cancelled,
    Failed,
    Running,
    Successful,
    Waiting,
}

/// Catalog topic of a task template.
#[derive(Clone, Copy, Debug, PartialEq, Eq, Structural)]
pub enum TemplateTopic {
    Bidding,
    ECommerce,
    LocalLife,
    Media,
    Other,
    ResearchEducation,
    SearchEngine,
    SocialNetwork,
}

} // verus!
