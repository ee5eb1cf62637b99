use vstd::prelude::*;

use crate::config::Config;
use crate::error::Error;
use crate::localization::Locales;
use crate::text::str_equal;

verus! {

/// Where the address of a run comes from.
pub enum AddressSource {
    /// Ask the user whether to look the place up, and look it up.
    Ask,
    /// Look the place up from the network address.
    GeoIp,
    /// The address given.
    Given(String),
}

/// How the address of a run is found: the greeting to print first, if any,
/// and where the address comes from.
pub struct AddressInput {
    pub greeting: Option<String>,
    pub source: AddressSource,
}

/// The greeting, indented unless the user is about to be asked something.
pub open spec fn greeting_line(prompt_user: bool, greeting: Seq<char>) -> Seq<char> {
    (if prompt_user { Seq::empty() } else { " "@ }) + " 🦀  "@ + greeting
}

/// How the address of a run is found, from the address argument (empty where
/// none was given) and the configuration: an error where the configuration
/// asks for an address and none was given; else a greeting if configured, and
/// the user asked where there is neither argument nor configured address,
/// the place looked up for "auto", or the address given (the argument before
/// the configured one).
pub open spec fn address_input(arg: Seq<char>, configured: Seq<char>, greet: bool, greeting: Seq<char>) -> Result<
    (Option<Seq<char>>, AddressSourceView),
    Error,
> {
    if arg.len() == 0 && configured == "arg_input"@ {
        Err(Error::CityRequired)
    } else {
        let prompt_user = arg.len() == 0 && configured.len() == 0;
        let line = if greet { Some(greeting_line(prompt_user, greeting)) } else { None };
        let source = if prompt_user {
            AddressSourceView::Ask
        } else if arg == "auto"@ || (arg.len() == 0 && configured == "auto"@) {
            AddressSourceView::GeoIp
        } else if arg.len() > 0 {
            AddressSourceView::Given(arg)
        } else {
            AddressSourceView::Given(configured)
        };
        Ok((line, source))
    }
}

/// The source an address input names, if it is not an error.
pub open spec fn source_of(r: Result<(Option<Seq<char>>, AddressSourceView), Error>) -> Option<AddressSourceView> {
    match r {
        Ok((_, s)) => Some(s),
        Err(_) => None,
    }
}

/// The greeting line an address input prints, if it is not an error.
pub open spec fn greeting_of(r: Result<(Option<Seq<char>>, AddressSourceView), Error>) -> Option<Option<Seq<char>>> {
    match r {
        Ok((line, _)) => Some(line),
        Err(_) => None,
    }
}

/// Where the address of a run comes from, whatever the greeting: an
/// address given as argument other than "auto" is the one used, whatever is
/// configured; "auto" as argument looks the place up; without an argument
/// the configuration decides: "arg_input" is an error, "auto" a lookup,
/// nothing asks the user, and any other address is used. Where greetings are
/// on, the greeting comes first, indented unless the user is about to be
/// asked.
pub proof fn lemma_address_source(arg: Seq<char>, configured: Seq<char>, greet: bool, greeting: Seq<char>)
    ensures
        arg.len() > 0 && arg != "auto"@ ==> source_of(address_input(arg, configured, greet, greeting)) == Some(AddressSourceView::Given(arg)),
        arg == "auto"@ ==> source_of(address_input(arg, configured, greet, greeting)) == Some(AddressSourceView::GeoIp),
        arg.len() == 0 && configured == "arg_input"@ ==> address_input(arg, configured, greet, greeting) == Err::<
            (Option<Seq<char>>, AddressSourceView),
            Error,
        >(Error::CityRequired),
        arg.len() == 0 && configured == "auto"@ ==> source_of(address_input(arg, configured, greet, greeting)) == Some(AddressSourceView::GeoIp),
        arg.len() == 0 && configured.len() == 0 ==> source_of(address_input(arg, configured, greet, greeting)) == Some(AddressSourceView::Ask),
        arg.len() == 0 && configured.len() > 0 && configured != "auto"@ && configured != "arg_input"@
            ==> source_of(address_input(arg, configured, greet, greeting)) == Some(AddressSourceView::Given(configured)),
        !(arg.len() == 0 && configured == "arg_input"@) ==> greeting_of(address_input(arg, configured, greet, greeting))
            == Some(
            if greet {
                Some(
                    (if arg.len() == 0 && configured.len() == 0 {
                        Seq::<char>::empty()
                    } else {
                        " "@
                    }) + " 🦀  "@ + greeting,
                )
            } else {
                None
            },
        ),
{
    reveal_strlit("auto");
    reveal_strlit("arg_input");
    assert("auto"@.len() == 4 && "arg_input"@.len() == 9);
}

/// Where an address comes from, as a value.
pub enum AddressSourceView {
    Ask,
    GeoIp,
    Given(Seq<char>),
}

impl View for AddressSource {
    type V = AddressSourceView;

    open spec fn view(&self) -> AddressSourceView {
        match self {
            AddressSource::Ask => AddressSourceView::Ask,
            AddressSource::GeoIp => AddressSourceView::GeoIp,
            AddressSource::Given(a) => AddressSourceView::Given(a@),
        }
    }
}

/// How the address of a run is found.
pub fn resolve_input(arg_address: &str, config: &Config, texts: &Locales) -> (r: Result<AddressInput, Error>)
    ensures
        match address_input(arg_address@, config.address@, config.gui.greeting, texts.greeting@) {
            Ok((line, source)) => r matches Ok(input) && input.source@ == source && match input.greeting {
                Some(g) => line == Some(g@),
                None => line is None,
            },
            Err(e) => r matches Err(e2) && e2 == e,
        },
{
    proof {
        reveal_strlit("arg_input");
        reveal_strlit("auto");
    }
    if arg_address.is_empty() && str_equal(config.address.as_str(), "arg_input") {
        return Err(Error::CityRequired);
    };

    let prompt_user = arg_address.is_empty() && config.address.as_str().is_empty();
    let greeting = if config.gui.greeting {
        let mut line = if prompt_user {
            String::new()
        } else {
            " ".to_string()
        };
        line.append(" 🦀  ");
        line.append(texts.greeting.as_str());
        Some(line)
    } else {
        None
    };

    let source = if prompt_user {
        AddressSource::Ask
    } else if str_equal(arg_address, "auto") || (arg_address.is_empty() && str_equal(config.address.as_str(), "auto")) {
        AddressSource::GeoIp
    } else if !arg_address.is_empty() {
        AddressSource::Given(arg_address.to_string())
    } else {
        AddressSource::Given(config.address.clone())
    };
    proof {
        if config.gui.greeting {
            assert(greeting->Some_0@ =~= greeting_line(prompt_user, texts.greeting@));
        }
    }
    Ok(AddressInput { greeting, source })
}

/// The address of a place looked up from the network address: its city and
/// its country code.
pub fn auto_address(city_name: &str, country_code: &str) -> (r: String)
    ensures
        r@ == city_name@ + ","@ + country_code@,
{
    let mut r = city_name.to_string();
    r.append(",");
    r.append(country_code);
    r
}

} // verus!
