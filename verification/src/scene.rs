pub mod menu;
pub mod physicstest;
pub mod stack;
