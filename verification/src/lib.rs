//! A 3x3x3 twisty-puzzle engine: cube states as corner and edge
//! permutations with orientation vectors, quarter-turn generators,
//! solvability invariants, coordinate compressions with their
//! transition and pruning tables, and a two-phase solving search.
pub mod coord;
pub mod cube;
pub mod laws;
pub mod permutation;
pub mod pruning_table;
pub mod search;
pub mod transition_table;

pub use coord::COCoord;
pub use coord::Coord;
pub use coord::EOCoord;
pub use cube::num_inversions;
pub use cube::Corner;
pub use cube::Cube;
pub use cube::CubeStateErr;
pub use cube::Edge;
pub use cube::Face;
pub use cube::Move;
pub use cube::NUM_CORNERS;
pub use cube::NUM_EDGES;
pub use pruning_table::get_co_prune_table;
pub use pruning_table::get_eo_prune_table;
pub use pruning_table::init_prune_table;
pub use search::is_g1;
pub use search::is_solved;
pub use search::phase0;
pub use search::phase1;
pub use search::solve;
pub use search::PruneTables;
pub use transition_table::get_co_transition_table;
pub use transition_table::get_eo_transition_table;
pub use transition_table::init_transition_table;
