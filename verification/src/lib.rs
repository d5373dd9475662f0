//! Exact 2D/3D/4D vector, rectangle and matrix algebra over rational scalars.
//!
//! Every scalar is a fraction of machine integers, so all arithmetic in this
//! crate is exact: coordinate-space round trips, matrix inversion and the
//! colour conversion return precisely the values their contracts state,
//! with no rounding. Operations that are inherently irrational (norms,
//! trigonometric matrix construction) are not part of this crate.

pub mod rat;
pub mod util;
pub mod vec2;
pub mod vec3;
pub mod vec4;
pub mod rect;
pub mod mat3;
pub mod mat4;

pub use rat::Rat;
pub use rat::Scal;
pub use rat::scal;
pub use rat::scal_int;
pub use util::lerp;
pub use vec2::Vec2;
pub use vec2::vec2;
pub use vec3::Vec3;
pub use vec3::vec3;
pub use vec4::Vec4;
pub use vec4::vec4;
pub use rect::Rect;
pub use rect::rect;
pub use rect::rectv;
pub use rect::rectc;
pub use mat3::Mat3;
pub use mat3::mat3;
pub use mat3::mat3_identity;
pub use mat3::mat3_mul;
pub use mat3::mat3_inv;
pub use mat3::mat3_trans_homog;
pub use mat4::Mat4;
pub use mat4::mat4_mul;
pub use mat4::mat4_transpose;
pub use mat4::mat4_trans_homog;
