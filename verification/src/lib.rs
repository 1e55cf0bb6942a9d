//! Scene logic of the PhirLie loading screens: the timing rules that decide
//! when a loading scene hands over to the next scene, the startup and chart
//! loading state machines, the chart-credit markup, and the pixel work done
//! on a decoded illustration.

pub mod timing;
pub mod text;
pub mod charter;
pub mod pixels;
pub mod illustration;
pub mod tips;
pub mod startup;
pub mod loading;
