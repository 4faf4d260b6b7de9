//! Core logic of a browser weather widget: classification of numeric
//! weather codes into a closed taxonomy, mapping of conditions to media
//! resource names, a prefix-searchable city catalog, and the message-driven
//! application controller that ties them together.

pub mod condition;
pub mod locations;
pub mod model;
pub mod models;
pub mod resources;
pub mod source;
pub mod task_manage;
pub mod text;
pub mod views;

pub use condition::Atmosphere;
pub use condition::Cloud;
pub use condition::Condition;
pub use condition::Drizzle;
pub use condition::Rain;
pub use condition::Snow;
pub use condition::Thunderstorm;
pub use locations::City;
pub use locations::Storage;
pub use model::Command;
pub use model::Model;
pub use model::Msg;
pub use models::Clouds;
pub use models::Desc;
pub use models::LocationWeather;
pub use models::RainSnowVolume;
pub use models::Temperatures;
pub use models::Times;
pub use models::Wind;
pub use resources::animation;
pub use resources::icon;
pub use source::proxy;
pub use source::Source;
pub use task_manage::TaskManage;
pub use views::WeatherBackground;
pub use views::WeatherBoard;
pub use views::WeatherIcon;
pub use views::WeatherToday;
