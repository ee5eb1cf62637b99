use vstd::prelude::*;

verus! {

/// The texts wthrr prints, in the language of the user.
pub struct Locales {
    pub greeting: String,
    pub search_station: String,
    pub config: ConfigLocales,
    pub weather: WeatherLocales,
}

/// The texts of the prompts about the configuration file.
pub struct ConfigLocales {
    pub confirm: String,
    pub next_time: String,
    pub deny: String,
    pub always_auto: String,
    pub save_as_default: String,
    pub reset_config: String,
    pub no_selection: String,
}

/// The labels of the weather panels.
pub struct WeatherLocales {
    pub feels_like: String,
    pub felt_like: String,
    pub humidity: String,
    pub dew_point: String,
    pub hourly_forecast: String,
    pub daily_overview: String,
    pub weather_code: WeatherCodeLocales,
}

/// The words for the WMO weather codes.
pub struct WeatherCodeLocales {
    pub clear_sky: String,
    pub mostly_clear: String,
    pub partly_cloudy: String,
    pub overcast: String,
    pub fog: String,
    pub depositing_rime_fog: String,
    pub light_drizzle: String,
    pub moderate_drizzle: String,
    pub dense_drizzle: String,
    pub light_freezing_drizzle: String,
    pub dense_freezing_drizzle: String,
    pub slight_rain: String,
    pub moderate_rain: String,
    pub heavy_rain: String,
    pub light_freezing_rain: String,
    pub heavy_freezing_rain: String,
    pub slight_snow_fall: String,
    pub moderate_snow_fall: String,
    pub heavy_snow_fall: String,
    pub snow_grains: String,
    pub slight_rain_showers: String,
    pub moderate_rain_showers: String,
    pub violent_rain_showers: String,
    pub slight_snow_showers: String,
    pub heavy_snow_showers: String,
    pub thunderstorm: String,
    pub thunderstorm_slight_hail: String,
    pub thunderstorm_heavy_hail: String,
}

impl Default for Locales {
    fn default() -> (r: Self)
        ensures
            r.text_views() == default_texts(),
    {
        Locales {
            greeting: "Hey friend. I'm glad you are asking.".to_string(),
            search_station: "You didn't specify a city. Should I check for a weather station close to your location?".to_string(),
            config: ConfigLocales::default(),
            weather: WeatherLocales::default(),
        }
    }
}

impl Default for ConfigLocales {
    fn default() -> (r: Self)
        ensures
            r.confirm@ == "Yes please"@,
            r.next_time@ == "No, ask me next time"@,
            r.deny@ == "No, dont ask me again"@,
            r.always_auto@ == "Always check for a weather station"@,
            r.save_as_default@ == "Would you like to use this as your default?"@,
            r.reset_config@ == "This will wipe ww's configuration. Continue?"@,
            r.no_selection@ == "User did not select anything or exited"@,
    {
        ConfigLocales {
            confirm: "Yes please".to_string(),
            next_time: "No, ask me next time".to_string(),
            deny: "No, dont ask me again".to_string(),
            always_auto: "Always check for a weather station".to_string(),
            save_as_default: "Would you like to use this as your default?".to_string(),
            reset_config: "This will wipe ww's configuration. Continue?".to_string(),
            no_selection: "User did not select anything or exited".to_string(),
        }
    }
}

impl Default for WeatherLocales {
    fn default() -> (r: Self)
        ensures
            r.feels_like@ == "Feels like"@,
            r.felt_like@ == "Felt like"@,
            r.humidity@ == "Humidity"@,
            r.dew_point@ == "Dew Point"@,
            r.hourly_forecast@ == "Hourly Forecast"@,
            r.daily_overview@ == "Daily Overview"@,
            r.weather_code.is_default(),
    {
        WeatherLocales {
            feels_like: "Feels like".to_string(),
            felt_like: "Felt like".to_string(),
            humidity: "Humidity".to_string(),
            dew_point: "Dew Point".to_string(),
            hourly_forecast: "Hourly Forecast".to_string(),
            daily_overview: "Daily Overview".to_string(),
            weather_code: WeatherCodeLocales::default(),
        }
    }
}

impl Default for WeatherCodeLocales {
    fn default() -> (r: Self)
        ensures
            r.clear_sky@ == "Clear Sky"@,
            r.mostly_clear@ == "Mostly Clear"@,
            r.partly_cloudy@ == "Partly Cloudy"@,
            r.overcast@ == "Overcast"@,
            r.fog@ == "Fog"@,
            r.depositing_rime_fog@ == "Depositing Rime Fog"@,
            r.light_drizzle@ == "Light Drizzle"@,
            r.moderate_drizzle@ == "Moderate Drizzle"@,
            r.dense_drizzle@ == "Dense Drizzle"@,
            r.light_freezing_drizzle@ == "Light Freezing Drizzle"@,
            r.dense_freezing_drizzle@ == "Dense Freezing Drizzle"@,
            r.slight_rain@ == "Slight Rain"@,
            r.moderate_rain@ == "Moderate Rain"@,
            r.heavy_rain@ == "Heavy Rain"@,
            r.light_freezing_rain@ == "Light Freezing Rain"@,
            r.heavy_freezing_rain@ == "Heavy Freezing Rain"@,
            r.slight_snow_fall@ == "Slight Snow Fall"@,
            r.moderate_snow_fall@ == "Moderate Snow Fall"@,
            r.heavy_snow_fall@ == "Heavy Snow Fall"@,
            r.snow_grains@ == "Snow Grains"@,
            r.slight_rain_showers@ == "Slight Rain Showers"@,
            r.moderate_rain_showers@ == "Moderate Rain Showers"@,
            r.violent_rain_showers@ == "Violent Rain Showers"@,
            r.slight_snow_showers@ == "Slight Snow Showers"@,
            r.heavy_snow_showers@ == "Heavy Snow Showers"@,
            r.thunderstorm@ == "Thunderstorm"@,
            r.thunderstorm_slight_hail@ == "Thunderstorm, Slight Hail"@,
            r.thunderstorm_heavy_hail@ == "Thunderstorm, Heavy Hail"@,
    {
        WeatherCodeLocales {
            clear_sky: "Clear Sky".to_string(),
            mostly_clear: "Mostly Clear".to_string(),
            partly_cloudy: "Partly Cloudy".to_string(),
            overcast: "Overcast".to_string(),
            fog: "Fog".to_string(),
            depositing_rime_fog: "Depositing Rime Fog".to_string(),
            light_drizzle: "Light Drizzle".to_string(),
            moderate_drizzle: "Moderate Drizzle".to_string(),
            dense_drizzle: "Dense Drizzle".to_string(),
            light_freezing_drizzle: "Light Freezing Drizzle".to_string(),
            dense_freezing_drizzle: "Dense Freezing Drizzle".to_string(),
            slight_rain: "Slight Rain".to_string(),
            moderate_rain: "Moderate Rain".to_string(),
            heavy_rain: "Heavy Rain".to_string(),
            light_freezing_rain: "Light Freezing Rain".to_string(),
            heavy_freezing_rain: "Heavy Freezing Rain".to_string(),
            slight_snow_fall: "Slight Snow Fall".to_string(),
            moderate_snow_fall: "Moderate Snow Fall".to_string(),
            heavy_snow_fall: "Heavy Snow Fall".to_string(),
            snow_grains: "Snow Grains".to_string(),
            slight_rain_showers: "Slight Rain Showers".to_string(),
            moderate_rain_showers: "Moderate Rain Showers".to_string(),
            violent_rain_showers: "Violent Rain Showers".to_string(),
            slight_snow_showers: "Slight Snow Showers".to_string(),
            heavy_snow_showers: "Heavy Snow Showers".to_string(),
            thunderstorm: "Thunderstorm".to_string(),
            thunderstorm_slight_hail: "Thunderstorm, Slight Hail".to_string(),
            thunderstorm_heavy_hail: "Thunderstorm, Heavy Hail".to_string(),
        }
    }
}

impl ConfigLocales {
    /// Whether every text is the English one that `default` gives.
    pub open spec fn is_default(self) -> bool {
        &&& self.confirm@ == "Yes please"@
        &&& self.next_time@ == "No, ask me next time"@
        &&& self.deny@ == "No, dont ask me again"@
        &&& self.always_auto@ == "Always check for a weather station"@
        &&& self.save_as_default@ == "Would you like to use this as your default?"@
        &&& self.reset_config@ == "This will wipe ww's configuration. Continue?"@
        &&& self.no_selection@ == "User did not select anything or exited"@
    }
}

impl WeatherLocales {
    /// Whether every text is the English one that `default` gives.
    pub open spec fn is_default(self) -> bool {
        &&& self.feels_like@ == "Feels like"@
        &&& self.felt_like@ == "Felt like"@
        &&& self.humidity@ == "Humidity"@
        &&& self.dew_point@ == "Dew Point"@
        &&& self.hourly_forecast@ == "Hourly Forecast"@
        &&& self.daily_overview@ == "Daily Overview"@
        &&& self.weather_code.is_default()
    }
}

impl WeatherCodeLocales {
    /// Whether every text is the English one that `default` gives.
    pub open spec fn is_default(self) -> bool {
        &&& self.clear_sky@ == "Clear Sky"@
        &&& self.mostly_clear@ == "Mostly Clear"@
        &&& self.partly_cloudy@ == "Partly Cloudy"@
        &&& self.overcast@ == "Overcast"@
        &&& self.fog@ == "Fog"@
        &&& self.depositing_rime_fog@ == "Depositing Rime Fog"@
        &&& self.light_drizzle@ == "Light Drizzle"@
        &&& self.moderate_drizzle@ == "Moderate Drizzle"@
        &&& self.dense_drizzle@ == "Dense Drizzle"@
        &&& self.light_freezing_drizzle@ == "Light Freezing Drizzle"@
        &&& self.dense_freezing_drizzle@ == "Dense Freezing Drizzle"@
        &&& self.slight_rain@ == "Slight Rain"@
        &&& self.moderate_rain@ == "Moderate Rain"@
        &&& self.heavy_rain@ == "Heavy Rain"@
        &&& self.light_freezing_rain@ == "Light Freezing Rain"@
        &&& self.heavy_freezing_rain@ == "Heavy Freezing Rain"@
        &&& self.slight_snow_fall@ == "Slight Snow Fall"@
        &&& self.moderate_snow_fall@ == "Moderate Snow Fall"@
        &&& self.heavy_snow_fall@ == "Heavy Snow Fall"@
        &&& self.snow_grains@ == "Snow Grains"@
        &&& self.slight_rain_showers@ == "Slight Rain Showers"@
        &&& self.moderate_rain_showers@ == "Moderate Rain Showers"@
        &&& self.violent_rain_showers@ == "Violent Rain Showers"@
        &&& self.slight_snow_showers@ == "Slight Snow Showers"@
        &&& self.heavy_snow_showers@ == "Heavy Snow Showers"@
        &&& self.thunderstorm@ == "Thunderstorm"@
        &&& self.thunderstorm_slight_hail@ == "Thunderstorm, Slight Hail"@
        &&& self.thunderstorm_heavy_hail@ == "Thunderstorm, Heavy Hail"@
    }
}

/// The number of texts in `Locales`.
pub const TEXT_COUNT: usize = 43;

/// The English texts, in the order of `Locales::text_views`.
pub open spec fn default_texts() -> Seq<Seq<char>> {
    seq![
        "Hey friend. I'm glad you are asking."@,
        "You didn't specify a city. Should I check for a weather station close to your location?"@,
        "Yes please"@,
        "No, ask me next time"@,
        "No, dont ask me again"@,
        "Always check for a weather station"@,
        "Would you like to use this as your default?"@,
        "This will wipe ww's configuration. Continue?"@,
        "User did not select anything or exited"@,
        "Feels like"@,
        "Felt like"@,
        "Humidity"@,
        "Dew Point"@,
        "Hourly Forecast"@,
        "Daily Overview"@,
        "Clear Sky"@,
        "Mostly Clear"@,
        "Partly Cloudy"@,
        "Overcast"@,
        "Fog"@,
        "Depositing Rime Fog"@,
        "Light Drizzle"@,
        "Moderate Drizzle"@,
        "Dense Drizzle"@,
        "Light Freezing Drizzle"@,
        "Dense Freezing Drizzle"@,
        "Slight Rain"@,
        "Moderate Rain"@,
        "Heavy Rain"@,
        "Light Freezing Rain"@,
        "Heavy Freezing Rain"@,
        "Slight Snow Fall"@,
        "Moderate Snow Fall"@,
        "Heavy Snow Fall"@,
        "Snow Grains"@,
        "Slight Rain Showers"@,
        "Moderate Rain Showers"@,
        "Violent Rain Showers"@,
        "Slight Snow Showers"@,
        "Heavy Snow Showers"@,
        "Thunderstorm"@,
        "Thunderstorm, Slight Hail"@,
        "Thunderstorm, Heavy Hail"@,
    ]
}

impl Locales {
    /// Every text, in declaration order (nested structs in place).
    pub open spec fn text_views(self) -> Seq<Seq<char>> {
        seq![
            self.greeting@,
            self.search_station@,
            self.config.confirm@,
            self.config.next_time@,
            self.config.deny@,
            self.config.always_auto@,
            self.config.save_as_default@,
            self.config.reset_config@,
            self.config.no_selection@,
            self.weather.feels_like@,
            self.weather.felt_like@,
            self.weather.humidity@,
            self.weather.dew_point@,
            self.weather.hourly_forecast@,
            self.weather.daily_overview@,
            self.weather.weather_code.clear_sky@,
            self.weather.weather_code.mostly_clear@,
            self.weather.weather_code.partly_cloudy@,
            self.weather.weather_code.overcast@,
            self.weather.weather_code.fog@,
            self.weather.weather_code.depositing_rime_fog@,
            self.weather.weather_code.light_drizzle@,
            self.weather.weather_code.moderate_drizzle@,
            self.weather.weather_code.dense_drizzle@,
            self.weather.weather_code.light_freezing_drizzle@,
            self.weather.weather_code.dense_freezing_drizzle@,
            self.weather.weather_code.slight_rain@,
            self.weather.weather_code.moderate_rain@,
            self.weather.weather_code.heavy_rain@,
            self.weather.weather_code.light_freezing_rain@,
            self.weather.weather_code.heavy_freezing_rain@,
            self.weather.weather_code.slight_snow_fall@,
            self.weather.weather_code.moderate_snow_fall@,
            self.weather.weather_code.heavy_snow_fall@,
            self.weather.weather_code.snow_grains@,
            self.weather.weather_code.slight_rain_showers@,
            self.weather.weather_code.moderate_rain_showers@,
            self.weather.weather_code.violent_rain_showers@,
            self.weather.weather_code.slight_snow_showers@,
            self.weather.weather_code.heavy_snow_showers@,
            self.weather.weather_code.thunderstorm@,
            self.weather.weather_code.thunderstorm_slight_hail@,
            self.weather.weather_code.thunderstorm_heavy_hail@,
        ]
    }

    /// A copy of every text, in the order of `text_views`.
    pub fn texts(&self) -> (r: Vec<String>)
        ensures
            r@.map_values(|s: String| s@) == self.text_views(),
    {
        let mut r: Vec<String> = Vec::new();
        r.push(self.greeting.clone());
        r.push(self.search_station.clone());
        r.push(self.config.confirm.clone());
        r.push(self.config.next_time.clone());
        r.push(self.config.deny.clone());
        r.push(self.config.always_auto.clone());
        r.push(self.config.save_as_default.clone());
        r.push(self.config.reset_config.clone());
        r.push(self.config.no_selection.clone());
        r.push(self.weather.feels_like.clone());
        r.push(self.weather.felt_like.clone());
        r.push(self.weather.humidity.clone());
        r.push(self.weather.dew_point.clone());
        r.push(self.weather.hourly_forecast.clone());
        r.push(self.weather.daily_overview.clone());
        r.push(self.weather.weather_code.clear_sky.clone());
        r.push(self.weather.weather_code.mostly_clear.clone());
        r.push(self.weather.weather_code.partly_cloudy.clone());
        r.push(self.weather.weather_code.overcast.clone());
        r.push(self.weather.weather_code.fog.clone());
        r.push(self.weather.weather_code.depositing_rime_fog.clone());
        r.push(self.weather.weather_code.light_drizzle.clone());
        r.push(self.weather.weather_code.moderate_drizzle.clone());
        r.push(self.weather.weather_code.dense_drizzle.clone());
        r.push(self.weather.weather_code.light_freezing_drizzle.clone());
        r.push(self.weather.weather_code.dense_freezing_drizzle.clone());
        r.push(self.weather.weather_code.slight_rain.clone());
        r.push(self.weather.weather_code.moderate_rain.clone());
        r.push(self.weather.weather_code.heavy_rain.clone());
        r.push(self.weather.weather_code.light_freezing_rain.clone());
        r.push(self.weather.weather_code.heavy_freezing_rain.clone());
        r.push(self.weather.weather_code.slight_snow_fall.clone());
        r.push(self.weather.weather_code.moderate_snow_fall.clone());
        r.push(self.weather.weather_code.heavy_snow_fall.clone());
        r.push(self.weather.weather_code.snow_grains.clone());
        r.push(self.weather.weather_code.slight_rain_showers.clone());
        r.push(self.weather.weather_code.moderate_rain_showers.clone());
        r.push(self.weather.weather_code.violent_rain_showers.clone());
        r.push(self.weather.weather_code.slight_snow_showers.clone());
        r.push(self.weather.weather_code.heavy_snow_showers.clone());
        r.push(self.weather.weather_code.thunderstorm.clone());
        r.push(self.weather.weather_code.thunderstorm_slight_hail.clone());
        r.push(self.weather.weather_code.thunderstorm_heavy_hail.clone());
        assert(r@.map_values(|s: String| s@) =~= self.text_views());
        r
    }

    /// Replaces every text by the one at the same place in `values`.
    pub fn set_texts(&mut self, values: &Vec<String>)
        requires
            values.len() == TEXT_COUNT,
        ensures
            final(self).text_views() == values@.map_values(|s: String| s@),
    {
        self.greeting = values[0].clone();
        self.search_station = values[1].clone();
        self.config.confirm = values[2].clone();
        self.config.next_time = values[3].clone();
        self.config.deny = values[4].clone();
        self.config.always_auto = values[5].clone();
        self.config.save_as_default = values[6].clone();
        self.config.reset_config = values[7].clone();
        self.config.no_selection = values[8].clone();
        self.weather.feels_like = values[9].clone();
        self.weather.felt_like = values[10].clone();
        self.weather.humidity = values[11].clone();
        self.weather.dew_point = values[12].clone();
        self.weather.hourly_forecast = values[13].clone();
        self.weather.daily_overview = values[14].clone();
        self.weather.weather_code.clear_sky = values[15].clone();
        self.weather.weather_code.mostly_clear = values[16].clone();
        self.weather.weather_code.partly_cloudy = values[17].clone();
        self.weather.weather_code.overcast = values[18].clone();
        self.weather.weather_code.fog = values[19].clone();
        self.weather.weather_code.depositing_rime_fog = values[20].clone();
        self.weather.weather_code.light_drizzle = values[21].clone();
        self.weather.weather_code.moderate_drizzle = values[22].clone();
        self.weather.weather_code.dense_drizzle = values[23].clone();
        self.weather.weather_code.light_freezing_drizzle = values[24].clone();
        self.weather.weather_code.dense_freezing_drizzle = values[25].clone();
        self.weather.weather_code.slight_rain = values[26].clone();
        self.weather.weather_code.moderate_rain = values[27].clone();
        self.weather.weather_code.heavy_rain = values[28].clone();
        self.weather.weather_code.light_freezing_rain = values[29].clone();
        self.weather.weather_code.heavy_freezing_rain = values[30].clone();
        self.weather.weather_code.slight_snow_fall = values[31].clone();
        self.weather.weather_code.moderate_snow_fall = values[32].clone();
        self.weather.weather_code.heavy_snow_fall = values[33].clone();
        self.weather.weather_code.snow_grains = values[34].clone();
        self.weather.weather_code.slight_rain_showers = values[35].clone();
        self.weather.weather_code.moderate_rain_showers = values[36].clone();
        self.weather.weather_code.violent_rain_showers = values[37].clone();
        self.weather.weather_code.slight_snow_showers = values[38].clone();
        self.weather.weather_code.heavy_snow_showers = values[39].clone();
        self.weather.weather_code.thunderstorm = values[40].clone();
        self.weather.weather_code.thunderstorm_slight_hail = values[41].clone();
        self.weather.weather_code.thunderstorm_heavy_hail = values[42].clone();
        assert(self.text_views() =~= values@.map_values(|s: String| s@));
    }
}

/// Texts with those of a file of translations laid over them: each text the
/// file holds replaces the one at its place.
pub open spec fn overridden(texts: Seq<Seq<char>>, values: Seq<Option<String>>) -> Seq<Seq<char>> {
    Seq::new(
        texts.len(),
        |i: int|
            match values[i] {
                Some(v) => v@,
                None => texts[i],
            },
    )
}

/// A file that holds no text leaves the texts as they are.
pub proof fn lemma_empty_file_keeps_texts(texts: Seq<Seq<char>>, values: Seq<Option<String>>)
    requires
        values.len() == texts.len(),
        forall|i: int| 0 <= i < values.len() ==> #[trigger] values[i] is None,
    ensures
        overridden(texts, values) == texts,
{
    assert(overridden(texts, values) =~= texts);
}

/// A file that holds every text replaces them all.
pub proof fn lemma_full_file_replaces_texts(texts: Seq<Seq<char>>, values: Seq<Option<String>>)
    requires
        values.len() == texts.len(),
        forall|i: int| 0 <= i < values.len() ==> #[trigger] values[i] is Some,
    ensures
        overridden(texts, values) == values.map_values(|v: Option<String>| v->Some_0@),
{
    assert(overridden(texts, values) =~= values.map_values(|v: Option<String>| v->Some_0@));
}

/// Whether the texts of a language are asked of the translation service: for
/// every language but English.
pub open spec fn translated_language(lang: Seq<char>) -> bool {
    lang != "en_US"@ && lang != "en"@
}

impl Locales {
    /// Lays the texts of a file of translations over these: each text the
    /// file holds (in the order of `text_views`) replaces the one in place.
    pub fn apply_overrides(&mut self, values: &Vec<Option<String>>)
        requires
            values.len() == TEXT_COUNT,
        ensures
            final(self).text_views() == overridden(old(self).text_views(), values@),
    {
        let current = self.texts();
        assert(old(self).text_views().len() == TEXT_COUNT);
        assert(current@.len() == current@.map_values(|s: String| s@).len());
        let mut merged: Vec<String> = Vec::new();
        let mut i: usize = 0;
        while i < TEXT_COUNT
            invariant
                i <= TEXT_COUNT,
                values@.len() == TEXT_COUNT,
                current@.map_values(|s: String| s@) == old(self).text_views(),
                current@.len() == TEXT_COUNT,
                old(self).text_views().len() == TEXT_COUNT,
                merged@.len() == i,
                forall|k: int| 0 <= k < i ==> #[trigger] merged@[k]@ == overridden(old(self).text_views(), values@)[k],
            decreases TEXT_COUNT - i,
        {
            let text = match &values[i] {
                Some(v) => v.clone(),
                None => current[i].clone(),
            };
            proof {
                assert(current@.map_values(|s: String| s@)[i as int] == current@[i as int]@);
            }
            merged.push(text);
            i = i + 1;
        }
        self.set_texts(&merged);
        assert(merged@.map_values(|s: String| s@) =~= overridden(old(self).text_views(), values@));
    }

    /// Whether the texts of a language are asked of the translation service.
    pub fn needs_translation(lang: &str) -> (r: bool)
        ensures
            r == translated_language(lang@),
    {
        proof {
            reveal_strlit("en_US");
            reveal_strlit("en");
        }
        !crate::text::str_equal(lang, "en_US") && !crate::text::str_equal(lang, "en")
    }
}

} // verus!
