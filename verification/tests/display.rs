use wthrr::border::{Border, BorderStyle, Edge, Separator};
use wthrr::config::Config;
use wthrr::date::Date;
use wthrr::display::current::prep as current_prep;
use wthrr::display::day::{prep as day_prep, prep_on as day_prep_on};
use wthrr::display::historical::HistoricalWeather;
use wthrr::args::Forecast;
use wthrr::display::hourly::{prep as hourly_prep, prepare_precipitation, prepare_separator};
use wthrr::forecast::Weekday;
use wthrr::display::line::Line;
use wthrr::display::product::{PanelLevels, Product};
use wthrr::display::week::{ForecastDay, Week};
use wthrr::error::Error;
use wthrr::localization::Locales;
use wthrr::params::Params;
use wthrr::text::{center_in, pad_string_to_width, style_number};
use wthrr::units::Precipitation;
use wthrr::weather::{CurrentWeather, Daily, DailyUnits, HistoricalDay, Hourly, HourlyUnits, Weather};
use wthrr::wind::WindDirection;

const W1: [&str; 10] = [
    "\u{256d}\u{2500}\u{2500}\u{2500}\u{2500}\u{2500}\u{2500}\u{2500}\u{2500}\u{2500}\u{2500}\u{2500}\u{2500}\u{2500}\u{2500}\u{2500}\u{2500}\u{2500}\u{2500}\u{2500}\u{2500}\u{2500}\u{2500}\u{2500}\u{2500}\u{2500}\u{2500}\u{2500}\u{2500}\u{2500}\u{2500}\u{2500}\u{2500}\u{2500}\u{2500}\u{2500}\u{2500}\u{2500}\u{2500}\u{256e}",
    "\u{2502} Berlin, Germany                      \u{2502}",
    "\u{251c}\u{2500}\u{2500}\u{2500}\u{2500}\u{2500}\u{2500}\u{2500}\u{2500}\u{2500}\u{2500}\u{2500}\u{2500}\u{2500}\u{2500}\u{2500}\u{2500}\u{2500}\u{2500}\u{2500}\u{2500}\u{2500}\u{2500}\u{2500}\u{2500}\u{2500}\u{2500}\u{2500}\u{2500}\u{2500}\u{2500}\u{2500}\u{2500}\u{2500}\u{2500}\u{2500}\u{2500}\u{2500}\u{2500}\u{2524}",
    "\u{2502} \u{e312} Overcast, 14.0\u{b0}C                   \u{2502}",
    "\u{2502} Feels like 11.8\u{b0}C                    \u{2502}",
    "\u{2502}                                      \u{2502}",
    "\u{2502} Humidity: 72%    Dew Point: 8.7\u{b0}C    \u{2502}",
    "\u{2502} \u{2191} 10.7km/h S     \u{e3a9} 1001.3hPa         \u{2502}",
    "\u{2502} \u{e34c} 07:18          \u{e343} 18:29             \u{2502}",
    "\u{2570}\u{2500}\u{2500}\u{2500}\u{2500}\u{2500}\u{2500}\u{2500}\u{2500}\u{2500}\u{2500}\u{2500}\u{2500}\u{2500}\u{2500}\u{2500}\u{2500}\u{2500}\u{2500}\u{2500}\u{2500}\u{2500}\u{2500}\u{2500}\u{2500}\u{2500}\u{2500}\u{2500}\u{2500}\u{2500}\u{2500}\u{2500}\u{2500}\u{2500}\u{2500}\u{2500}\u{2500}\u{2500}\u{2500}\u{256f}",
];
const W2: [&str; 21] = [
    "\u{256d}\u{2500}\u{2500}\u{2500}\u{2500}\u{2500}\u{2500}\u{2500}\u{2500}\u{2500}\u{2500}\u{2500}\u{2500}\u{2500}\u{2500}\u{2500}\u{2500}\u{2500}\u{2500}\u{2500}\u{2500}\u{2500}\u{2500}\u{2500}\u{2500}\u{2500}\u{2500}\u{2500}\u{2500}\u{2500}\u{2500}\u{2500}\u{2500}\u{2500}\u{2500}\u{2500}\u{2500}\u{2500}\u{2500}\u{2500}\u{2500}\u{2500}\u{2500}\u{2500}\u{2500}\u{2500}\u{2500}\u{2500}\u{2500}\u{2500}\u{2500}\u{2500}\u{2500}\u{2500}\u{2500}\u{2500}\u{2500}\u{2500}\u{2500}\u{2500}\u{2500}\u{2500}\u{2500}\u{2500}\u{2500}\u{2500}\u{2500}\u{2500}\u{2500}\u{2500}\u{2500}\u{2500}\u{2500}\u{256e}",
    "\u{2502} Berlin, Germany                                                        \u{2502}",
    "\u{251c}\u{2500}\u{2500}\u{2500}\u{2500}\u{2500}\u{2500}\u{2500}\u{2500}\u{2500}\u{2500}\u{2500}\u{2500}\u{2500}\u{2500}\u{2500}\u{2500}\u{2500}\u{2500}\u{2500}\u{2500}\u{2500}\u{2500}\u{2500}\u{2500}\u{2500}\u{2500}\u{2500}\u{2500}\u{2500}\u{2500}\u{2500}\u{2500}\u{2500}\u{2500}\u{2500}\u{2500}\u{2500}\u{2500}\u{2500}\u{2500}\u{2500}\u{2500}\u{2500}\u{2500}\u{2500}\u{2500}\u{2500}\u{2500}\u{2500}\u{2500}\u{2500}\u{2500}\u{2500}\u{2500}\u{2500}\u{2500}\u{2500}\u{2500}\u{2500}\u{2500}\u{2500}\u{2500}\u{2500}\u{2500}\u{2500}\u{2500}\u{2500}\u{2500}\u{2500}\u{2500}\u{2500}\u{2500}\u{2524}",
    "\u{2502} \u{e312} Overcast, 14.0\u{b0}C                                                     \u{2502}",
    "\u{2502} Feels like 11.8\u{b0}C                                                      \u{2502}",
    "\u{2502}                                                                        \u{2502}",
    "\u{2502} Humidity: 72%         Dew Point: 8.7\u{b0}C                                 \u{2502}",
    "\u{2502} \u{2191} 10.7km/h S          \u{e3a9} 1001.3hPa                                      \u{2502}",
    "\u{2502} \u{e34c} 07:18               \u{e343} 18:29                                          \u{2502}",
    "\u{2502}                                                                        \u{2502}",
    "\u{2502} Hourly Forecast                                                        \u{2502}",
    "\u{2502} 15.1/6.8\u{b0}C \u{2772}25\u{f058e}\u{2773}                                                       \u{2502}",
    "\u{251c}\u{2508}\u{2508}\u{2508}\u{2508}\u{2508}\u{2508}\u{2508}\u{2508}\u{2508}\u{2508}\u{2508}\u{2508}\u{2508}\u{2508}\u{2508}\u{2508}\u{2508}\u{2508}\u{2508}\u{2508}\u{2508}\u{2508}\u{2508}\u{2508}\u{2508}\u{2508}\u{2508}\u{2508}\u{2508}\u{2508}\u{2508}\u{2508}\u{2508}\u{2508}\u{2508}\u{2508}\u{2508}\u{2508}\u{2508}\u{2508}\u{2508}\u{2564}\u{2508}\u{2508}\u{2508}\u{2508}\u{2508}\u{2508}\u{2508}\u{2508}\u{2508}\u{2508}\u{2508}\u{2508}\u{2508}\u{2508}\u{2508}\u{2508}\u{2508}\u{2508}\u{2508}\u{2508}\u{2508}\u{2508}\u{2508}\u{2508}\u{2508}\u{2508}\u{2508}\u{2508}\u{2508}\u{2508}\u{2524}",
    "\u{2502}  \u{2089}\u{e37b}       \u{2088}\u{e37b}       \u{2087}\u{e32e}       \u{2087}\u{e302}      \u{2081}\u{2082}\u{e312}      \u{2081}\u{2085}\u{e312}      \u{2081}\u{2084}\u{e312}      \u{2081}\u{2084}\u{e312}   \u{e339} \u{2502}",
    "\u{2502}                                                                        \u{2502}",
    "\u{2502}                                    \u{1fb7a}\u{1fb79}\u{1fb78}\u{1fb77}\u{1fb77}\u{1fb76}\u{1fb76}\u{1fb76}\u{2594}\u{2594}\u{2594}\u{2594}\u{1fb76}\u{1fb76}\u{1fb76}\u{1fb76}\u{1fb76}\u{1fb76}\u{1fb77}\u{1fb77}\u{1fb77}\u{1fb77}\u{1fb77}\u{1fb77}\u{1fb78}\u{1fb78}\u{1fb78}\u{1fb78}\u{1fb78}\u{1fb78}\u{1fb79}\u{1fb79}\u{1fb79}\u{1fb79}\u{1fb79}\u{1fb79}\u{2502}",
    "\u{2502}\u{1fb79}\u{1fb79}\u{1fb79}\u{1fb7a}\u{1fb7a}\u{1fb7a}\u{1fb7a}\u{1fb7a}\u{1fb7a}\u{1fb7b}\u{1fb7b}\u{1fb7b}\u{1fb7b}\u{1fb7b}\u{1fb7b}\u{2581}\u{2581}\u{2581}\u{2581}\u{2581}\u{2581}\u{2581}\u{2581}\u{2581}\u{2581}\u{2581}\u{2581}\u{1fb7b}\u{1fb7b}\u{1fb7a}\u{1fb79}\u{1fb78}\u{1fb77}\u{1fb76}\u{2594}\u{2594}                                    \u{2502}",
    "\u{2502}  \u{2080}        \u{2080}        \u{2080}        \u{2080}        \u{2080}       \u{2082}\u{2085}        \u{2080}        \u{2080}    \u{f058e} \u{2502}",
    "\u{251c}\u{2508}\u{2508}\u{2508}\u{2508}\u{2508}\u{2508}\u{2508}\u{2508}\u{2508}\u{2508}\u{2508}\u{2508}\u{2508}\u{2508}\u{2508}\u{2508}\u{2508}\u{2508}\u{2508}\u{2508}\u{2508}\u{2508}\u{2508}\u{2508}\u{2508}\u{2508}\u{2508}\u{2508}\u{2508}\u{2508}\u{2508}\u{2508}\u{2508}\u{2508}\u{2508}\u{2508}\u{2508}\u{2508}\u{2508}\u{2508}\u{2508}\u{2567}\u{2508}\u{2508}\u{2508}\u{2508}\u{2508}\u{2508}\u{2508}\u{2508}\u{2508}\u{2508}\u{2508}\u{2508}\u{2508}\u{2508}\u{2508}\u{2508}\u{2508}\u{2508}\u{2508}\u{2508}\u{2508}\u{2508}\u{2508}\u{2508}\u{2508}\u{2508}\u{2508}\u{2508}\u{2508}\u{2508}\u{2524}",
    "\u{2502}\u{2070}\u{2070}\u{2d9}\u{2070}\u{2070}    \u{2070}\u{b3}\u{2d9}\u{2070}\u{2070}    \u{2070}\u{2076}\u{2d9}\u{2070}\u{2070}    \u{2070}\u{2079}\u{2d9}\u{2070}\u{2070}    \u{b9}\u{b2}\u{2d9}\u{2070}\u{2070}    \u{b9}\u{2075}\u{2d9}\u{2070}\u{2070}    \u{b9}\u{2078}\u{2d9}\u{2070}\u{2070}    \u{b2}\u{b9}\u{2d9}\u{2070}\u{2070}    \u{2502}",
    "\u{2570}\u{2500}\u{2500}\u{2500}\u{2500}\u{2500}\u{2500}\u{2500}\u{2500}\u{2500}\u{2500}\u{2500}\u{2500}\u{2500}\u{2500}\u{2500}\u{2500}\u{2500}\u{2500}\u{2500}\u{2500}\u{2500}\u{2500}\u{2500}\u{2500}\u{2500}\u{2500}\u{2500}\u{2500}\u{2500}\u{2500}\u{2500}\u{2500}\u{2500}\u{2500}\u{2500}\u{2500}\u{2500}\u{2500}\u{2500}\u{2500}\u{2500}\u{2500}\u{2500}\u{2500}\u{2500}\u{2500}\u{2500}\u{2500}\u{2500}\u{2500}\u{2500}\u{2500}\u{2500}\u{2500}\u{2500}\u{2500}\u{2500}\u{2500}\u{2500}\u{2500}\u{2500}\u{2500}\u{2500}\u{2500}\u{2500}\u{2500}\u{2500}\u{2500}\u{2500}\u{2500}\u{2500}\u{2500}\u{256f}",
];
const D0: [&str; 17] = [
    "\u{256d}\u{2500}\u{2500}\u{2500}\u{2500}\u{2500}\u{2500}\u{2500}\u{2500}\u{2500}\u{2500}\u{2500}\u{2500}\u{2500}\u{2500}\u{2500}\u{2500}\u{2500}\u{2500}\u{2500}\u{2500}\u{2500}\u{2500}\u{2500}\u{2500}\u{2500}\u{2500}\u{2500}\u{2500}\u{2500}\u{2500}\u{2500}\u{2500}\u{2500}\u{2500}\u{2500}\u{2500}\u{2500}\u{2500}\u{2500}\u{2500}\u{2500}\u{2500}\u{2500}\u{2500}\u{2500}\u{2500}\u{2500}\u{2500}\u{2500}\u{2500}\u{2500}\u{2500}\u{2500}\u{2500}\u{2500}\u{2500}\u{2500}\u{2500}\u{2500}\u{2500}\u{2500}\u{2500}\u{2500}\u{2500}\u{2500}\u{2500}\u{2500}\u{2500}\u{2500}\u{2500}\u{2500}\u{2500}\u{256e}",
    "\u{2502} Berlin, Germany                                                        \u{2502}",
    "\u{251c}\u{2500}\u{2500}\u{2500}\u{2500}\u{2500}\u{2500}\u{2500}\u{2500}\u{2500}\u{2500}\u{2500}\u{2500}\u{2500}\u{2500}\u{2500}\u{2500}\u{2500}\u{2500}\u{2500}\u{2500}\u{2500}\u{2500}\u{2500}\u{2500}\u{2500}\u{2500}\u{2500}\u{2500}\u{2500}\u{2500}\u{2500}\u{2500}\u{2500}\u{2500}\u{2500}\u{2500}\u{2500}\u{2500}\u{2500}\u{2500}\u{2500}\u{2500}\u{2500}\u{2500}\u{2500}\u{2500}\u{2500}\u{2500}\u{2500}\u{2500}\u{2500}\u{2500}\u{2500}\u{2500}\u{2500}\u{2500}\u{2500}\u{2500}\u{2500}\u{2500}\u{2500}\u{2500}\u{2500}\u{2500}\u{2500}\u{2500}\u{2500}\u{2500}\u{2500}\u{2500}\u{2500}\u{2500}\u{2524}",
    "\u{2502} \u{e31b} Slight Rain Showers, 15.1/6.8\u{b0}C \u{2772}25\u{f058e}\u{2773}                  \u{eab0} Mon,  7 Oct \u{2502}",
    "\u{2502} Feels like 14.5/4.3\u{b0}C                                 \u{e34c} 07:18  \u{e343} 18:29 \u{2502}",
    "\u{2502}                                                                        \u{2502}",
    "\u{2502} Hourly Forecast                                                        \u{2502}",
    "\u{2502} 15.1/6.8\u{b0}C \u{2772}25\u{f058e}\u{2773}                                                       \u{2502}",
    "\u{251c}\u{2508}\u{2508}\u{2508}\u{2508}\u{2508}\u{2508}\u{2508}\u{2508}\u{2508}\u{2508}\u{2508}\u{2508}\u{2508}\u{2508}\u{2508}\u{2508}\u{2508}\u{2508}\u{2508}\u{2508}\u{2508}\u{2508}\u{2508}\u{2508}\u{2508}\u{2508}\u{2508}\u{2508}\u{2508}\u{2508}\u{2508}\u{2508}\u{2508}\u{2508}\u{2508}\u{2508}\u{2508}\u{2508}\u{2508}\u{2508}\u{2508}\u{2564}\u{2508}\u{2508}\u{2508}\u{2508}\u{2508}\u{2508}\u{2508}\u{2508}\u{2508}\u{2508}\u{2508}\u{2508}\u{2508}\u{2508}\u{2508}\u{2508}\u{2508}\u{2508}\u{2508}\u{2508}\u{2508}\u{2508}\u{2508}\u{2508}\u{2508}\u{2508}\u{2508}\u{2508}\u{2508}\u{2508}\u{2524}",
    "\u{2502}  \u{2089}\u{e37b}       \u{2088}\u{e37b}       \u{2087}\u{e32e}       \u{2087}\u{e302}      \u{2081}\u{2082}\u{e312}      \u{2081}\u{2085}\u{e312}      \u{2081}\u{2084}\u{e312}      \u{2081}\u{2084}\u{e312}   \u{e339} \u{2502}",
    "\u{2502}                                                                        \u{2502}",
    "\u{2502}                                    \u{1fb7a}\u{1fb79}\u{1fb78}\u{1fb77}\u{1fb77}\u{1fb76}\u{1fb76}\u{1fb76}\u{2594}\u{2594}\u{2594}\u{2594}\u{1fb76}\u{1fb76}\u{1fb76}\u{1fb76}\u{1fb76}\u{1fb76}\u{1fb77}\u{1fb77}\u{1fb77}\u{1fb77}\u{1fb77}\u{1fb77}\u{1fb78}\u{1fb78}\u{1fb78}\u{1fb78}\u{1fb78}\u{1fb78}\u{1fb79}\u{1fb79}\u{1fb79}\u{1fb79}\u{1fb79}\u{1fb79}\u{2502}",
    "\u{2502}\u{1fb79}\u{1fb79}\u{1fb79}\u{1fb7a}\u{1fb7a}\u{1fb7a}\u{1fb7a}\u{1fb7a}\u{1fb7a}\u{1fb7b}\u{1fb7b}\u{1fb7b}\u{1fb7b}\u{1fb7b}\u{1fb7b}\u{2581}\u{2581}\u{2581}\u{2581}\u{2581}\u{2581}\u{2581}\u{2581}\u{2581}\u{2581}\u{2581}\u{2581}\u{1fb7b}\u{1fb7b}\u{1fb7a}\u{1fb79}\u{1fb78}\u{1fb77}\u{1fb76}\u{2594}\u{2594}                                    \u{2502}",
    "\u{2502}  \u{2080}        \u{2080}        \u{2080}        \u{2080}        \u{2080}       \u{2082}\u{2085}        \u{2080}        \u{2080}    \u{f058e} \u{2502}",
    "\u{251c}\u{2508}\u{2508}\u{2508}\u{2508}\u{2508}\u{2508}\u{2508}\u{2508}\u{2508}\u{2508}\u{2508}\u{2508}\u{2508}\u{2508}\u{2508}\u{2508}\u{2508}\u{2508}\u{2508}\u{2508}\u{2508}\u{2508}\u{2508}\u{2508}\u{2508}\u{2508}\u{2508}\u{2508}\u{2508}\u{2508}\u{2508}\u{2508}\u{2508}\u{2508}\u{2508}\u{2508}\u{2508}\u{2508}\u{2508}\u{2508}\u{2508}\u{2567}\u{2508}\u{2508}\u{2508}\u{2508}\u{2508}\u{2508}\u{2508}\u{2508}\u{2508}\u{2508}\u{2508}\u{2508}\u{2508}\u{2508}\u{2508}\u{2508}\u{2508}\u{2508}\u{2508}\u{2508}\u{2508}\u{2508}\u{2508}\u{2508}\u{2508}\u{2508}\u{2508}\u{2508}\u{2508}\u{2508}\u{2524}",
    "\u{2502}\u{2070}\u{2070}\u{2d9}\u{2070}\u{2070}    \u{2070}\u{b3}\u{2d9}\u{2070}\u{2070}    \u{2070}\u{2076}\u{2d9}\u{2070}\u{2070}    \u{2070}\u{2079}\u{2d9}\u{2070}\u{2070}    \u{b9}\u{b2}\u{2d9}\u{2070}\u{2070}    \u{b9}\u{2075}\u{2d9}\u{2070}\u{2070}    \u{b9}\u{2078}\u{2d9}\u{2070}\u{2070}    \u{b2}\u{b9}\u{2d9}\u{2070}\u{2070}    \u{2502}",
    "\u{2570}\u{2500}\u{2500}\u{2500}\u{2500}\u{2500}\u{2500}\u{2500}\u{2500}\u{2500}\u{2500}\u{2500}\u{2500}\u{2500}\u{2500}\u{2500}\u{2500}\u{2500}\u{2500}\u{2500}\u{2500}\u{2500}\u{2500}\u{2500}\u{2500}\u{2500}\u{2500}\u{2500}\u{2500}\u{2500}\u{2500}\u{2500}\u{2500}\u{2500}\u{2500}\u{2500}\u{2500}\u{2500}\u{2500}\u{2500}\u{2500}\u{2500}\u{2500}\u{2500}\u{2500}\u{2500}\u{2500}\u{2500}\u{2500}\u{2500}\u{2500}\u{2500}\u{2500}\u{2500}\u{2500}\u{2500}\u{2500}\u{2500}\u{2500}\u{2500}\u{2500}\u{2500}\u{2500}\u{2500}\u{2500}\u{2500}\u{2500}\u{2500}\u{2500}\u{2500}\u{2500}\u{2500}\u{2500}\u{256f}",
];
const D2: [&str; 16] = [
    "\u{256d}\u{2500}\u{2500}\u{2500}\u{2500}\u{2500}\u{2500}\u{2500}\u{2500}\u{2500}\u{2500}\u{2500}\u{2500}\u{2500}\u{2500}\u{2500}\u{2500}\u{2500}\u{2500}\u{2500}\u{2500}\u{2500}\u{2500}\u{2500}\u{2500}\u{2500}\u{2500}\u{2500}\u{2500}\u{2500}\u{2500}\u{2500}\u{2500}\u{2500}\u{2500}\u{2500}\u{2500}\u{2500}\u{2500}\u{2500}\u{2500}\u{2500}\u{2500}\u{2500}\u{2500}\u{2500}\u{2500}\u{2500}\u{2500}\u{2500}\u{2500}\u{2500}\u{2500}\u{2500}\u{2500}\u{2500}\u{2500}\u{2500}\u{2500}\u{2500}\u{2500}\u{2500}\u{2500}\u{2500}\u{2500}\u{2500}\u{2500}\u{2500}\u{2500}\u{2500}\u{2500}\u{2500}\u{2500}\u{256e}",
    "\u{2502} Berlin, Germany                                                        \u{2502}",
    "\u{251c}\u{2500}\u{2500}\u{2500}\u{2500}\u{2500}\u{2500}\u{2500}\u{2500}\u{2500}\u{2500}\u{2500}\u{2500}\u{2500}\u{2500}\u{2500}\u{2500}\u{2500}\u{2500}\u{2500}\u{2500}\u{2500}\u{2500}\u{2500}\u{2500}\u{2500}\u{2500}\u{2500}\u{2500}\u{2500}\u{2500}\u{2500}\u{2500}\u{2500}\u{2500}\u{2500}\u{2500}\u{2500}\u{2500}\u{2500}\u{2500}\u{2500}\u{2500}\u{2500}\u{2500}\u{2500}\u{2500}\u{2500}\u{2500}\u{2500}\u{2500}\u{2500}\u{2500}\u{2500}\u{2500}\u{2500}\u{2500}\u{2500}\u{2500}\u{2500}\u{2500}\u{2500}\u{2500}\u{2500}\u{2500}\u{2500}\u{2500}\u{2500}\u{2500}\u{2500}\u{2500}\u{2500}\u{2500}\u{2524}",
    "\u{2502} \u{e31b} Moderate Rain, 17.9/13.7\u{b0}C \u{2772}98\u{f058e}\u{2773}                       \u{eab0} Wed,  9 Oct \u{2502}",
    "\u{2502} Feels like 17.4/13.7\u{b0}C                                \u{e34c} 07:22  \u{e343} 18:24 \u{2502}",
    "\u{2502}                                                                        \u{2502}",
    "\u{2502} Hourly Forecast                                                        \u{2502}",
    "\u{251c}\u{2508}\u{2508}\u{2508}\u{2508}\u{2508}\u{2508}\u{2508}\u{2508}\u{2508}\u{2508}\u{2508}\u{2508}\u{2508}\u{2508}\u{2508}\u{2508}\u{2508}\u{2508}\u{2508}\u{2508}\u{2508}\u{2508}\u{2508}\u{2508}\u{2508}\u{2508}\u{2508}\u{2508}\u{2508}\u{2508}\u{2508}\u{2508}\u{2508}\u{2508}\u{2508}\u{2508}\u{2508}\u{2508}\u{2508}\u{2508}\u{2508}\u{2508}\u{2508}\u{2508}\u{2508}\u{2508}\u{2508}\u{2508}\u{2508}\u{2508}\u{2508}\u{2508}\u{2508}\u{2508}\u{2508}\u{2508}\u{2508}\u{2508}\u{2508}\u{2508}\u{2508}\u{2508}\u{2508}\u{2508}\u{2508}\u{2508}\u{2508}\u{2508}\u{2508}\u{2508}\u{2508}\u{2508}\u{2524}",
    "\u{2502} \u{2081}\u{2086}\u{e336}      \u{2081}\u{2085}\u{e334}      \u{2081}\u{2084}\u{e336}      \u{2081}\u{2084}\u{e312}      \u{2081}\u{2087}\u{e30c}      \u{2081}\u{2087}\u{e312}      \u{2081}\u{2086}\u{e312}      \u{2081}\u{2085}\u{e336}   \u{e339} \u{2502}",
    "\u{2502}                                                                        \u{2502}",
    "\u{2502}                                    \u{1fb79}\u{1fb78}\u{1fb77}\u{1fb78}\u{1fb76}\u{1fb78}\u{1fb78}\u{1fb78}\u{1fb78}\u{1fb78}\u{1fb78}\u{1fb78}\u{1fb78}\u{1fb78}\u{1fb7a}\u{1fb7a}\u{1fb7b}\u{1fb7b}\u{1fb7b}\u{1fb7b}\u{2581}               \u{2502}",
    "\u{2502}\u{2594}\u{2594}\u{2594}\u{2594}\u{2594}\u{2594}\u{2594}\u{2594}\u{1fb77}\u{1fb78}\u{1fb79}\u{1fb79}\u{1fb7a}\u{1fb7a}\u{1fb7a}\u{1fb7a}\u{1fb7a}\u{1fb7a}\u{1fb7b}\u{1fb7b}\u{1fb7b}\u{2581}\u{2581}\u{2581}\u{2581}\u{2581}\u{2581}\u{1fb7b}\u{1fb7b}\u{1fb7a}\u{1fb79}\u{1fb79}\u{1fb78}\u{1fb76}\u{2594}\u{2594}                     \u{2594}\u{2594}\u{2594}\u{1fb76}\u{1fb76}\u{1fb78}\u{1fb78}\u{1fb78}\u{1fb7a}\u{1fb7a}\u{1fb7a}\u{1fb7a}\u{1fb7a}\u{1fb7a}\u{1fb7a}\u{2502}",
    "\u{2502} \u{2088}\u{2083}       \u{2089}\u{2088}       \u{2086}\u{2088}       \u{2083}\u{2080}       \u{2081}\u{2087}       \u{2081}\u{2089}       \u{2082}\u{2087}       \u{2082}\u{2082}    \u{f058e} \u{2502}",
    "\u{251c}\u{2508}\u{2508}\u{2508}\u{2508}\u{2508}\u{2508}\u{2508}\u{2508}\u{2508}\u{2508}\u{2508}\u{2508}\u{2508}\u{2508}\u{2508}\u{2508}\u{2508}\u{2508}\u{2508}\u{2508}\u{2508}\u{2508}\u{2508}\u{2508}\u{2508}\u{2508}\u{2508}\u{2508}\u{2508}\u{2508}\u{2508}\u{2508}\u{2508}\u{2508}\u{2508}\u{2508}\u{2508}\u{2508}\u{2508}\u{2508}\u{2508}\u{2508}\u{2508}\u{2508}\u{2508}\u{2508}\u{2508}\u{2508}\u{2508}\u{2508}\u{2508}\u{2508}\u{2508}\u{2508}\u{2508}\u{2508}\u{2508}\u{2508}\u{2508}\u{2508}\u{2508}\u{2508}\u{2508}\u{2508}\u{2508}\u{2508}\u{2508}\u{2508}\u{2508}\u{2508}\u{2508}\u{2508}\u{2524}",
    "\u{2502}\u{2070}\u{2070}\u{2d9}\u{2070}\u{2070}    \u{2070}\u{b3}\u{2d9}\u{2070}\u{2070}    \u{2070}\u{2076}\u{2d9}\u{2070}\u{2070}    \u{2070}\u{2079}\u{2d9}\u{2070}\u{2070}    \u{b9}\u{b2}\u{2d9}\u{2070}\u{2070}    \u{b9}\u{2075}\u{2d9}\u{2070}\u{2070}    \u{b9}\u{2078}\u{2d9}\u{2070}\u{2070}    \u{b2}\u{b9}\u{2d9}\u{2070}\u{2070}    \u{2502}",
    "\u{2570}\u{2500}\u{2500}\u{2500}\u{2500}\u{2500}\u{2500}\u{2500}\u{2500}\u{2500}\u{2500}\u{2500}\u{2500}\u{2500}\u{2500}\u{2500}\u{2500}\u{2500}\u{2500}\u{2500}\u{2500}\u{2500}\u{2500}\u{2500}\u{2500}\u{2500}\u{2500}\u{2500}\u{2500}\u{2500}\u{2500}\u{2500}\u{2500}\u{2500}\u{2500}\u{2500}\u{2500}\u{2500}\u{2500}\u{2500}\u{2500}\u{2500}\u{2500}\u{2500}\u{2500}\u{2500}\u{2500}\u{2500}\u{2500}\u{2500}\u{2500}\u{2500}\u{2500}\u{2500}\u{2500}\u{2500}\u{2500}\u{2500}\u{2500}\u{2500}\u{2500}\u{2500}\u{2500}\u{2500}\u{2500}\u{2500}\u{2500}\u{2500}\u{2500}\u{2500}\u{2500}\u{2500}\u{2500}\u{256f}",
];
const LEVELS_DAY_0: [usize; 25] = [3, 2, 2, 1, 1, 0, 0, 0, 0, 0, 3, 6, 10, 12, 14, 15, 14, 14, 13, 13, 12, 12, 11, 11, 10];
const LEVELS_DAY_2: [usize; 25] = [7, 7, 7, 3, 2, 2, 1, 0, 0, 0, 2, 6, 11, 14, 12, 12, 12, 9, 9, 7, 6, 4, 2, 2, 1];

fn texts(v: &[&str]) -> Vec<String> {
    v.iter().map(|s| s.to_string()).collect()
}

fn repeated(s: &str, n: usize) -> Vec<String> {
    vec![s.to_string(); n]
}

fn test_weather() -> Weather {
    let mut temperature_2m = vec![10; 168];
    let mut weathercode = vec![3u8; 168];
    let mut precipitation_probability = vec![0u8; 168];
    for (k, (t, c)) in [(9, 1), (8, 1), (7, 2), (7, 2), (12, 3), (15, 3), (14, 3), (14, 3)].iter().enumerate() {
        temperature_2m[3 * k] = *t;
        weathercode[3 * k] = *c;
    }
    precipitation_probability[15] = 25;
    for (k, (t, c, p)) in [(16, 61, 83), (15, 63, 98), (14, 61, 68), (14, 3, 30), (17, 1, 17), (17, 3, 19), (16, 3, 27), (15, 61, 22)]
        .iter()
        .enumerate()
    {
        temperature_2m[48 + 3 * k] = *t;
        weathercode[48 + 3 * k] = *c;
        precipitation_probability[48 + 3 * k] = *p;
    }
    Weather {
        current_weather: CurrentWeather {
            temperature: "14.0".to_string(),
            windspeed: "10.7".to_string(),
            winddirection: Some(WindDirection::S),
            weathercode: 3,
            time: "2024-10-07T13:10".to_string(),
        },
        hourly_units: HourlyUnits {
            temperature_2m: "°C".to_string(),
            relativehumidity_2m: "%".to_string(),
            apparent_temperature: "°C".to_string(),
            surface_pressure: "hPa".to_string(),
            dewpoint_2m: "°C".to_string(),
            windspeed_10m: "km/h".to_string(),
            precipitation: "mm".to_string(),
        },
        hourly: Hourly {
            temperature_2m,
            relativehumidity_2m: repeated("72", 168),
            apparent_temperature: repeated("11.8", 168),
            surface_pressure: repeated("1001.3", 168),
            dewpoint_2m: repeated("8.7", 168),
            precipitation: vec![0; 168],
            precipitation_probability,
            weathercode,
        },
        daily_units: DailyUnits { temperature_2m_max: "°C".to_string(), temperature_2m_min: "°C".to_string() },
        daily: Daily {
            time: texts(&["2024-10-07", "2024-10-08", "2024-10-09", "2024-10-10", "2024-10-11", "2024-10-12", "2024-10-13"]),
            weathercode: vec![80, 3, 63, 3, 3, 3, 3],
            sunrise: texts(&[
                "2024-10-07T07:18",
                "2024-10-08T07:20",
                "2024-10-09T07:22",
                "2024-10-10T07:23",
                "2024-10-11T07:25",
                "2024-10-12T07:27",
                "2024-10-13T07:29",
            ]),
            sunset: texts(&[
                "2024-10-07T18:29",
                "2024-10-08T18:27",
                "2024-10-09T18:24",
                "2024-10-10T18:22",
                "2024-10-11T18:20",
                "2024-10-12T18:18",
                "2024-10-13T18:16",
            ]),
            temperature_2m_max: texts(&["15.1", "16.0", "17.9", "15.0", "14.0", "13.0", "12.0"]),
            temperature_2m_min: texts(&["6.8", "7.0", "13.7", "9.0", "8.0", "7.0", "6.0"]),
            apparent_temperature_max: texts(&["14.5", "15.0", "17.4", "14.0", "13.0", "12.0", "11.0"]),
            apparent_temperature_min: texts(&["4.3", "5.0", "13.7", "8.0", "7.0", "6.0", "5.0"]),
            precipitation_probability_max: vec![25, 10, 98, 0, 0, 0, 0],
            precipitation_sum: None,
        },
    }
}

fn test_product() -> Product {
    Product { address: "Berlin, Germany".to_string(), weather: test_weather(), historical_weather: None }
}

fn test_params() -> Params {
    Params { config: Config::default(), historical_weather: vec![], forecast_indices: [false; 9], texts: Locales::default() }
}

fn plain(line: &Line) -> String {
    line.segments.iter().map(|s| s.text.as_str()).collect()
}


fn same_lines(have: &[Line], want: &str) {
    let have: Vec<String> = have.iter().map(plain).collect();
    let want: Vec<&str> = want.split('\n').collect();
    for (i, w) in want.iter().enumerate() {
        assert_eq!(have.get(i).map(|s| s.as_str()), Some(*w), "line {}", i);
    }
    assert_eq!(have.len(), want.len());
}

fn want(lines: &[&str]) -> String {
    lines.join("\n")
}

#[test]
fn output_without_forecast() {
    let (lines, dims) = current_prep(&test_product(), &test_params(), false, &[]).unwrap();
    same_lines(&lines, &want(&W1));
    assert_eq!((dims.width, dims.cell_width), (38, 17));
}

#[test]
fn output_with_hourly_forecast() {
    let (lines, dims) = current_prep(&test_product(), &test_params(), true, &LEVELS_DAY_0).unwrap();
    same_lines(&lines, &want(&W2));
    assert_eq!((dims.width, dims.cell_width), (72, 22));
}

#[test]
fn output() {
    let test_product = test_product();
    let test_params = test_params();

    let test_date =
        chrono::NaiveDate::parse_from_str(&test_product.weather.current_weather.time, "%Y-%m-%dT%H:%M").unwrap();
    assert_eq!(chrono::Datelike::weekday(&test_date), chrono::Weekday::Mon);

    let lines = day_prep(&test_product, &test_params, 0, &LEVELS_DAY_0).unwrap();
    same_lines(&lines, &D0.join("\n"));

    let lines = day_prep(&test_product, &test_params, 2, &LEVELS_DAY_2).unwrap();
    same_lines(&lines, &D2.join("\n"));
}

#[test]
fn day_panel_in_another_language() {
    let mut params = test_params();
    params.config.language = "de_DE".to_string();
    let today = Date { year: 2024, month: 10, day: 7 };
    let lines = day_prep_on(&test_product(), &params, 2, &LEVELS_DAY_2, today).unwrap();
    assert!(plain(&lines[3]).contains("\u{eab0} Mi,  9 Okt"));
    // A past date is written with its year.
    let today = Date { year: 2024, month: 10, day: 20 };
    let lines = day_prep_on(&test_product(), &params, 2, &LEVELS_DAY_2, today).unwrap();
    assert!(plain(&lines[3]).contains("\u{eab0} Mi,  9 Okt 2024"));
}

#[test]
fn unknown_codes_and_winds_fail() {
    let mut product = test_product();
    product.weather.current_weather.winddirection = None;
    assert!(matches!(current_prep(&product, &test_params(), false, &[]), Err(Error::UnknownWindDirection)));
    let mut product = test_product();
    product.weather.current_weather.weathercode = 4;
    assert!(matches!(current_prep(&product, &test_params(), false, &[]), Err(Error::UnknownWeatherCode)));
    let mut product = test_product();
    product.weather.hourly.weathercode[21] = 100;
    assert!(matches!(current_prep(&product, &test_params(), true, &LEVELS_DAY_0), Err(Error::UnknownWeatherCode)));
    let mut product = test_product();
    product.weather.current_weather.time = "2024-10-07 13:10".to_string();
    assert!(matches!(current_prep(&product, &test_params(), true, &LEVELS_DAY_0), Err(Error::InvalidDate)));
}

#[test]
fn twelve_hour_clock() {
    let mut params = test_params();
    params.config.units.time = wthrr::units::Time::am_pm;
    let (lines, _) = current_prep(&test_product(), &params, false, &[]).unwrap();
    assert_eq!(plain(&lines[8]), "│ \u{e34c} 7:18am         \u{e343} 6:29pm            │");
}

#[test]
fn week_overview() {
    let week = Week::prep(&test_product(), &test_params()).unwrap();
    assert_eq!(week.days.len(), 7);
    assert_eq!(week.days[0].date, "Mon,  7 Oct");
    assert_eq!(week.days[0].weather, "\u{e31b} 15.1°C/6.8°C");
    assert_eq!(week.days[0].interpretation, "Slight Rain Showers");
    let widest = week.width;
    let lines = week.render(&test_params(), None);
    // Top edge, seven days with six separators between them, bottom edge.
    assert_eq!(lines.len(), 15);
    let top = plain(&lines[0]);
    assert_eq!(top.chars().count(), widest + 10 + 2);
    assert!(plain(&lines[2]).starts_with("├┈"));
    assert_eq!(plain(&lines[1]).chars().count(), widest + 12);
    assert!(plain(&lines[1]).starts_with("│ Mon,  7 Oct    \u{e31b} 15.1°C/6.8°C"));
    assert!(plain(&lines[1]).ends_with("Slight Rain Showers │"));
}

#[test]
fn week_below_current_panel_takes_its_width() {
    let week = Week {
        days: vec![ForecastDay { date: "Mon".to_string(), weather: "x".to_string(), interpretation: "y".to_string() }],
        width: 5,
    };
    let dims = wthrr::display::current::Dimensions { width: 72, cell_width: 22 };
    let lines = week.render(&test_params(), Some(dims));
    assert_eq!(lines.len(), 3);
    assert_eq!(plain(&lines[0]).chars().count(), 74);
    assert_eq!(plain(&lines[1]), format!("│ Mon{}x{}y │", " ".repeat(19), " ".repeat(46)));
}

fn past_day() -> HistoricalDay {
    let mut temperature_2m = vec![5; 24];
    let mut weathercode = vec![3u8; 24];
    for (k, t) in [1, 2, 3, 4, 5, 6, 7, 8].iter().enumerate() {
        temperature_2m[3 * k] = *t;
        weathercode[3 * k] = 2;
    }
    HistoricalDay {
        temperature_2m,
        weathercode,
        precipitation: vec![1; 24],
        sunrise: "2021-12-31T08:17".to_string(),
        sunset: "2021-12-31T15:59".to_string(),
        temperature_2m_max: "8.4".to_string(),
        temperature_2m_min: "1.2".to_string(),
        apparent_temperature_max: "6.1".to_string(),
        apparent_temperature_min: "-2.0".to_string(),
        precipitation_sum: "0.4".to_string(),
        daily_weathercode: 3,
        temperature_unit: "°C".to_string(),
    }
}

#[test]
fn historical_panel() {
    let date = Date { year: 2021, month: 12, day: 31 };
    let mut product = test_product();
    product.historical_weather = Some(vec![(date, past_day())]);
    let params = test_params();
    let levels = vec![0usize; 25];
    let panel = HistoricalWeather::prep(&product, &params, &date, &levels).unwrap();
    assert_eq!(panel.date, "\u{eab0} Fri, 31 Dec 2021");
    assert_eq!(panel.precipitation_sum, "❲0.4\u{e34a}ₘₘ❳");
    assert_eq!(panel.apparent_temp_max_min, "Felt like 6.1/-2.0°C");
    let lines = panel.render(&params);
    assert_eq!(plain(&lines[6]), format!("│ Daily Overview{} │", " ".repeat(56)));
    assert!(plain(&lines[3]).starts_with("│ \u{e312} Overcast, 8.4/1.2°C ❲0.4\u{e34a}ₘₘ❳"));
    assert!(plain(&lines[3]).ends_with("\u{eab0} Fri, 31 Dec 2021 │"));
    // No mark of the current time in a past day's graph.
    assert_eq!(plain(&lines[7]), format!("├{}┤", "┈".repeat(72)));
    assert_eq!(lines.len(), 16);
}

#[test]
fn past_day_title_is_centred_and_overview_in_millimetres() {
    let date = Date { year: 2021, month: 12, day: 31 };
    let mut product = test_product();
    product.historical_weather = Some(vec![(date, past_day())]);
    let params = test_params();
    assert_eq!(params.config.units.precipitation, Precipitation::probability);
    let levels = vec![0usize; 25];
    let panel = HistoricalWeather::prep(&product, &params, &date, &levels).unwrap();
    let lines = panel.render(&params);
    // "Berlin, Germany" has 15 characters: 55 blanks share the 70 columns.
    assert_eq!(plain(&lines[1]), format!("│ {}Berlin, Germany{} │", " ".repeat(27), " ".repeat(28)));
    let texts: Vec<String> = lines.iter().map(plain).collect();
    assert!(texts.iter().any(|l| l.ends_with("\u{e34a}ₘₘ│")));
    assert!(!texts.iter().any(|l| l.contains("\u{f058e}")));
}

#[test]
fn render_shows_panels_and_the_source() {
    let product = test_product();
    let params = test_params();
    let levels = PanelLevels { days: vec![LEVELS_DAY_0.to_vec()], historical: vec![] };
    let (lines, error) = product.render(&params, &levels).unwrap();
    assert!(error.is_none());
    assert_eq!(lines.len(), 11);
    same_lines(&lines[..10], &want(&W1));
    assert_eq!(plain(&lines[10]), " Weather data by Open-Meteo.com\n");
}

fn short_product(time: &str, hours: usize) -> Product {
    let mut product = test_product();
    product.weather.current_weather.time = time.to_string();
    let h = &mut product.weather.hourly;
    h.temperature_2m.truncate(hours);
    h.weathercode.truncate(hours);
    h.precipitation_probability.truncate(hours);
    // The amounts are not read while probabilities are shown.
    h.precipitation.truncate(1);
    product
}

#[test]
fn current_day_needs_only_its_own_hours() {
    let product = short_product("2024-10-07T13:10", 25);
    let lines = hourly_prep(&product, &test_params(), 0, &LEVELS_DAY_0).unwrap();
    assert_eq!(plain(&lines[1]), format!("│ Hourly Forecast{} │", " ".repeat(55)));
}

#[test]
fn last_hour_reads_the_next_day() {
    let mut params = test_params();
    params.config.forecast = vec![Forecast::day];
    let levels = PanelLevels { days: vec![LEVELS_DAY_0.to_vec()], historical: vec![] };
    let today = Date { year: 2024, month: 10, day: 7 };
    // At 23:10 the current day's graph shows the next day: 49 hours are too few.
    let product = short_product("2024-10-07T23:10", 49);
    assert!(product.render_if_complete_on(&params, &levels, today, Weekday::Mon).is_none());
    // With the next day's hours it is drawn.
    let product = short_product("2024-10-07T23:10", 50);
    let (lines, error) = product.render_if_complete_on(&params, &levels, today, Weekday::Mon).unwrap();
    assert!(error.is_none());
    assert_eq!(plain(&lines[10]), format!("│ Hourly Forecast{} │", " ".repeat(55)));
    // Before the last hour the current day's 25 hours are enough.
    let product = short_product("2024-10-07T22:10", 25);
    assert!(product.render_if_complete_on(&params, &levels, today, Weekday::Mon).is_some());
    // Without the current day's hours asked for, nothing is missing.
    params.config.forecast = vec![Forecast::tu];
    let levels = PanelLevels { days: vec![vec![], LEVELS_DAY_0.to_vec()], historical: vec![] };
    let product = short_product("2024-10-07T23:10", 168);
    assert!(product.render_if_complete_on(&params, &levels, today, Weekday::Mon).is_some());
}

#[test]
fn render_stops_at_a_failing_panel() {
    let date = Date { year: 2021, month: 12, day: 31 };
    let mut product = test_product();
    let mut day = past_day();
    day.daily_weathercode = 42;
    product.historical_weather = Some(vec![(date, day)]);
    let mut params = test_params();
    params.historical_weather = vec![date];
    let levels = PanelLevels { days: vec![], historical: vec![vec![0; 25]] };
    let (lines, error) = product.render(&params, &levels).unwrap();
    assert!(matches!(error, Some(Error::UnknownWeatherCode)));
    assert_eq!(lines.len(), 1);
}

#[test]
fn pad_and_numbers() {
    assert_eq!(pad_string_to_width("ab", 5), "ab   ");
    assert_eq!(pad_string_to_width("abcdef", 3), "abcdef");
    // A wide character takes two columns.
    assert_eq!(pad_string_to_width("名", 4), "名  ");
    assert_eq!(style_number(0, true), "₀");
    assert_eq!(style_number(-25, false), "⁻²⁵");
    assert_eq!(style_number(1203, true), "₁₂₀₃");
    assert_eq!(style_number(i32::MAX, false), "²¹⁴⁷⁴⁸³⁶⁴⁷");
}

#[test]
fn centring() {
    assert_eq!(center_in("ab", 7), "  ab   ");
    assert_eq!(center_in("ab", 6), "  ab  ");
    assert_eq!(center_in("abcdef", 3), "abcdef");
    assert_eq!(center_in("名", 3), " 名 ");
}

#[test]
fn borders() {
    assert_eq!(Border::TL.fmt(&BorderStyle::double), "╔");
    assert_eq!(Edge::Top.fmt(3, &BorderStyle::rounded), "╭───╮");
    assert_eq!(Edge::Bottom.fmt(2, &BorderStyle::solid), "┗━━┛");
    assert_eq!(Separator::Blank.fmt(2, &BorderStyle::single), "│  │");
    assert_eq!(Separator::Dashed.fmt(3, &BorderStyle::double), "├┈┈┈┤");
}

#[test]
fn graph_separators_and_precipitation() {
    assert_eq!(prepare_separator(3, &BorderStyle::rounded, 6, '╤'), "├┈┈╤┈┈┈┤");
    assert_eq!(prepare_separator(1, &BorderStyle::double, 3, '╧'), "╟╧──╢");
    assert_eq!(prepare_separator(2, &BorderStyle::solid, 2, '╤'), "┠─╤┨");
    let mut p = vec![0u8; 24];
    p[3] = 12;
    assert_eq!(
        prepare_precipitation(&p),
        " ₀       ₁₂        ₀        ₀        ₀        ₀        ₀        ₀ "
    );
}

#[test]
fn long_addresses_lose_their_second_fields() {
    let address = "Berlin, Mitte, Berlin, Deutschland".to_string();
    assert_eq!(Product::trunc_address(address.clone(), 20), "Berlin, Deutschland");
    assert_eq!(Product::trunc_address(address.clone(), 40), address);
    assert!(wthrr::display::product::truncates_address(&address, 20));
    assert!(!wthrr::display::product::truncates_address("Berlin, Deutschland", 5));
}
