//! The rules of a two-paddle ball game, kept apart from everything that draws
//! or measures.
//!
//! The library owns the discrete side of the game: the layout grid of the
//! viewport, the phase of play, the score, the ball's speed tier and the order
//! in which a frame's events take effect. Positions and velocities are
//! fractional quantities that live with the host. The library tells the host
//! what to do with them through a short list of [`action::Action`]s, and the
//! host reports back what it measured as [`action::Contacts`].
//!
//! A frame goes like this. The host polls the keys and the viewport's size
//! and calls [`game::Game::update`], then carries out the actions of the
//! frame it gets back. If that frame began in a round, the host draws the
//! court, calls [`game::Game::handle_paddles_movement`] with the keys that
//! are held and carries out the moves, measures what the ball touches, calls
//! [`game::Game::simulate`] with the result and carries out the ball's plan.
//! Otherwise it draws the screen of the frame's phase.
//!
//! [`model::GameView`] is the state as a mathematical value, with each
//! operation as a function on it; the contracts in [`game`] are stated over
//! it, and [`laws`] holds what follows.

pub mod action;
pub mod game;
pub mod laws;
pub mod model;
pub mod toss;
pub mod window;
