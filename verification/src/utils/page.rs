//! What the session knows of the map page: its address, the selectors of
//! its elements, the texts that stand for "no data", and the scripts that
//! are run in it. A change of the page's markup is a change of this table.

use crate::utils::text::same_text;
use vstd::prelude::*;

verus! {

/// The address of the map page.
pub const URL: &'static str = "https://lbs.qq.com/getPoint/";

/// The search input.
pub const MAP_SEARCH_BAR_SELECT: &'static str =
    "#app > div > div > div.layout-view > div > div.getpoint-map > div.getpoint-search > div > div > div > div > input";

/// The button that clears the search input.
pub const MAP_SEARCH_BAR_CLEAR_BUTTON_SELECT: &'static str =
    "#app > div > div > div.layout-view > div > div.getpoint-map > div.getpoint-search > div > div > div > div > div > div.getpoint-search-clear";

/// The entries of the list of popular cities.
pub const MAP_AREA_POPULAR_CITIES_SELECT: &'static str =
    "#city-select > div > ul.hotcity-list > li > span";

/// The entries of the list of cities by category.
pub const MAP_AREA_CATEGORIES_SELECT: &'static str = "#categoresList > div > ul > ul > li > span";

/// The label of the region that the map shows.
pub const MAP_AREA_SELECT: &'static str = "#city-select > p";

/// The heading that names the chosen point.
pub const TERMINAL_NAME_SELECT: &'static str =
    "#app > div > div > div > div > div.getpoint-info > div.getpoint-info-content > h2";

/// The input that holds the coordinates of the chosen point.
pub const TERMINAL_LOCATION_SELECT: &'static str = "#location > div > input";

/// The input that holds the address of the chosen point.
pub const TERMINAL_ADDRESS_SELECT: &'static str = "#address > div > input";

/// The attribute in which an input holds its content.
pub const VALUE_ATTRIBUTE: &'static str = "value";

/// The key that submits a search.
pub const SUBMIT_KEY: &'static str = "Enter";

/// The heading of the page while no point is chosen.
pub const NO_POINT_NAME: &'static str = "点图获取坐标";

/// The content of an input of the page while no point is chosen.
pub const NO_VALUE: &'static str = "-";

/// The function that removes the list which the page drops down below the
/// search input.
pub const HIDE_SEARCH_DROPDOWN: &'static str = "function hideSearchDropdown(){
                document.querySelector('body > div:nth-child(10)').remove();
            }";

/// The script that selects a region, up to the selector of the popular cities.
pub const REGION_SCRIPT_HEAD: &'static str = "
                requestAnimationFrame(() => {
                    const popular_cities_list = document.querySelectorAll('";

/// The script that selects a region, between its two selectors.
pub const REGION_SCRIPT_LISTS: &'static str = "');
                    const categories_list = document.querySelectorAll('";

/// The script that selects a region, from the second selector to the first
/// place of the region's name.
pub const REGION_SCRIPT_CATEGORIES: &'static str = "');

                    for (let i = 0; i < categories_list.length; i++) {
                        const category = categories_list[i];
                        let name = \"";

/// The script that selects a region, between the two places of the region's
/// name.
pub const REGION_SCRIPT_POPULAR: &'static str = "\";
                        console.log(category.innerText , name);
                        if (category.innerText === name) {
                            requestAnimationFrame(() => {
                                category.click();
                            });
                            break;
                        }

                    }

                    for (let i = 0; i < popular_cities_list.length; i++) {
                        const popular_city = popular_cities_list[i];
                        let name = \"";

/// The script that selects a region, after the second place of the region's
/// name.
pub const REGION_SCRIPT_TAIL: &'static str = "\";
                        console.log(popular_city.innerText , name);
                        if (popular_city.innerText === name) {
                            requestAnimationFrame(() => {
                                popular_city.click();
                            });
                            break;
                        }
                    }
                });
            ";

/// The script that selects the region with the short name `name`. On the next
/// frame it looks through the list by category and through the list of popular
/// cities for an entry whose text is exactly `name`, and clicks the first such
/// entry of each list.
pub open spec fn region_script_spec(name: Seq<char>) -> Seq<char> {
    REGION_SCRIPT_HEAD@ + MAP_AREA_POPULAR_CITIES_SELECT@ + REGION_SCRIPT_LISTS@
        + MAP_AREA_CATEGORIES_SELECT@ + REGION_SCRIPT_CATEGORIES@ + name + REGION_SCRIPT_POPULAR@
        + name + REGION_SCRIPT_TAIL@
}

/// The script that selects the region with the short name `name`.
pub fn region_script(name: &str) -> (script: String)
    ensures
        script@ == region_script_spec(name@),
{
    let mut script = REGION_SCRIPT_HEAD.to_owned();
    script.append(MAP_AREA_POPULAR_CITIES_SELECT);
    script.append(REGION_SCRIPT_LISTS);
    script.append(MAP_AREA_CATEGORIES_SELECT);
    script.append(REGION_SCRIPT_CATEGORIES);
    script.append(name);
    script.append(REGION_SCRIPT_POPULAR);
    script.append(name);
    script.append(REGION_SCRIPT_TAIL);
    script
}

/// What a text of the page says: nothing where it is the `placeholder` that
/// the page shows for "no data", else the text itself.
pub open spec fn present_spec(text: Seq<char>, placeholder: Seq<char>) -> Option<Seq<char>> {
    if text == placeholder {
        None
    } else {
        Some(text)
    }
}

/// The text that an optional string holds.
pub open spec fn text_of(value: Option<String>) -> Option<Seq<char>> {
    match value {
        Some(text) => Some(text@),
        None => None,
    }
}

/// What a text of the page says: `None` where it is the `placeholder`, else
/// the text, unchanged.
pub fn present(text: String, placeholder: &str) -> (value: Option<String>)
    ensures
        text_of(value) == present_spec(text@, placeholder@),
{
    if same_text(text.as_str(), placeholder) {
        None
    } else {
        Some(text)
    }
}

} // verus!
