//! Control layer of a small multiplayer-lobby game: the screen flow
//! (main menu, room creation, lobby, in game), the per-session scenario and
//! its modifiers, the actor roster and its periodic announcer, and the
//! motion and animation state of the player entity.
pub mod animation;
pub mod clock;
pub mod flow;
pub mod motion;
pub mod roster;
pub mod scenario;
pub mod session;
