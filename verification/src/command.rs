//! Deriving a fully resolved generation command from a decoded request:
//! algorithm-conditional defaults are applied here, and the output format is
//! fixed to binary.

use vstd::prelude::*;
use crate::request::{Algorithm, Corner, Direction, OutputType, Dimensions, MazeRequest};

verus! {

/// The algorithm with its sub-parameter resolved: a binary-tree walk knows
/// its start corner, a side-winder walk its traversal direction, and an
/// Aldous-Broder walk needs neither.
#[derive(Clone, Copy, PartialEq, Eq, Debug)]
pub enum ResolvedAlgorithm {
    AldousBroder,
    BinaryTree { start_corner: Corner },
    SideWinder { traversal_direction: Direction },
}

/// The fully resolved instruction handed to the maze-generation engine.
#[derive(Clone, Copy, PartialEq, Eq, Debug)]
pub struct GenerationCommand {
    pub dimensions: Dimensions,
    pub algorithm: ResolvedAlgorithm,
    pub output_type: OutputType,
}

/// The corner a binary-tree command uses: the requested one, or north-west
/// where the request carries none.
pub open spec fn spec_derive_corner(r: MazeRequest) -> Corner {
    match r.corner {
        Some(c) => c,
        None => Corner::NorthWest,
    }
}

/// The direction a side-winder command uses: the requested one, or north
/// where the request carries none.
pub open spec fn spec_derive_direction(r: MazeRequest) -> Direction {
    match r.direction {
        Some(d) => d,
        None => Direction::North,
    }
}

/// The resolved algorithm of a request: defaults are substituted only for
/// the sub-parameter the chosen algorithm consults; the others are ignored.
pub open spec fn spec_derive_algorithm(r: MazeRequest) -> ResolvedAlgorithm {
    match r.algorithm {
        Algorithm::AldousBroder => ResolvedAlgorithm::AldousBroder,
        Algorithm::BinaryTree => ResolvedAlgorithm::BinaryTree {
            start_corner: spec_derive_corner(r),
        },
        Algorithm::SideWinder => ResolvedAlgorithm::SideWinder {
            traversal_direction: spec_derive_direction(r),
        },
    }
}

/// The command a request derives to: dimensions pass through unchanged, the
/// algorithm is resolved, and the output type is always binary.
pub open spec fn spec_to_maze_args(r: MazeRequest) -> GenerationCommand {
    GenerationCommand {
        dimensions: r.dimensions,
        algorithm: spec_derive_algorithm(r),
        output_type: OutputType::Binary,
    }
}

impl MazeRequest {
    /// The dimensions of the command: the request's, unchanged.
    pub fn derive_dimensions(&self) -> (r: Dimensions)
        ensures
            r == self.dimensions,
    {
        Dimensions { height: self.dimensions.height, width: self.dimensions.width }
    }

    /// The start corner for a binary-tree command: the requested corner, or
    /// north-west by default.
    pub fn derive_corner(&self) -> (r: Corner)
        ensures
            r == spec_derive_corner(*self),
    {
        match self.corner {
            Some(c) => c,
            None => Corner::NorthWest,
        }
    }

    /// The traversal direction for a side-winder command: the requested
    /// direction, or north by default.
    pub fn derive_direction(&self) -> (r: Direction)
        ensures
            r == spec_derive_direction(*self),
    {
        match self.direction {
            Some(d) => d,
            None => Direction::North,
        }
    }

    /// The resolved algorithm of this request.
    pub fn derive_algorithm(&self) -> (r: ResolvedAlgorithm)
        ensures
            r == spec_derive_algorithm(*self),
    {
        match self.algorithm {
            Algorithm::AldousBroder => ResolvedAlgorithm::AldousBroder,
            Algorithm::BinaryTree => ResolvedAlgorithm::BinaryTree {
                start_corner: self.derive_corner(),
            },
            Algorithm::SideWinder => ResolvedAlgorithm::SideWinder {
                traversal_direction: self.derive_direction(),
            },
        }
    }

    /// Derive the full generation command for this request. Total: every
    /// request derives exactly one command.
    pub fn to_maze_args(&self) -> (r: GenerationCommand)
        ensures
            r == spec_to_maze_args(*self),
    {
        GenerationCommand {
            dimensions: self.derive_dimensions(),
            algorithm: self.derive_algorithm(),
            output_type: OutputType::Binary,
        }
    }
}

/// Deriving a command is a pure function of the request: equal requests
/// derive equal commands, so deriving twice from one request yields
/// identical commands.
pub proof fn lemma_derive_is_function_of_request(a: MazeRequest, b: MazeRequest)
    requires
        a == b,
    ensures
        spec_to_maze_args(a) == spec_to_maze_args(b),
{
}

/// A binary-tree request without a corner derives the north-west corner,
/// and a side-winder request without a direction derives north.
pub proof fn lemma_default_substitution(r: MazeRequest)
    ensures
        r.algorithm is BinaryTree && r.corner is None ==> spec_to_maze_args(r).algorithm
            == (ResolvedAlgorithm::BinaryTree { start_corner: Corner::NorthWest }),
        r.algorithm is SideWinder && r.direction is None ==> spec_to_maze_args(r).algorithm
            == (ResolvedAlgorithm::SideWinder { traversal_direction: Direction::North }),
{
}

/// An Aldous-Broder request derives its command from the dimensions alone:
/// whatever corner or direction it carries is ignored.
pub proof fn lemma_irrelevant_fields_ignored(a: MazeRequest, b: MazeRequest)
    requires
        a.algorithm is AldousBroder,
        b.algorithm is AldousBroder,
        a.dimensions == b.dimensions,
    ensures
        spec_to_maze_args(a) == spec_to_maze_args(b),
{
}

} // verus!
