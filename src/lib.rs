pub mod animations;
pub mod cli;
pub mod color;
pub mod consts;
pub mod mpd_visualizer;
