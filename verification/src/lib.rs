pub mod animation;
pub mod bird;
pub mod bounds_deletion;
pub mod clouds;
pub mod collide;
pub mod config;
pub mod gamedata;
pub mod gamestate;
pub mod mountains;
pub mod physics;
pub mod pipes;
pub mod random;
pub mod screens;
pub mod sim;
pub mod timer;
pub mod world;
