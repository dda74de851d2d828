//! Colour themes of the remote's window.

use vstd::prelude::*;
use vstd::string::*;

verus! {

/// A colour as red, green and blue intensities.
pub type Rgb = [u8; 3];

/// A named colour theme: the window background, the text colour and a
/// colour for each of the six heading levels.
#[derive(Debug)]
pub struct Theme {
    pub name: String,
    pub background_color: Rgb,
    pub text_color: Rgb,
    pub heading_colors: Vec<Rgb>,
}

/// What a theme holds, its name as a character sequence.
pub struct ThemeView {
    pub name: Seq<char>,
    pub background_color: Rgb,
    pub text_color: Rgb,
    pub heading_colors: Seq<Rgb>,
}

impl View for Theme {
    type V = ThemeView;

    open spec fn view(&self) -> ThemeView {
        ThemeView {
            name: self.name@,
            background_color: self.background_color,
            text_color: self.text_color,
            heading_colors: self.heading_colors@,
        }
    }
}

/// The views of a list of themes.
pub open spec fn themes_view(themes: Seq<Theme>) -> Seq<ThemeView> {
    themes.map_values(|t: Theme| t@)
}

/// The colour given by its three components.
pub open spec fn rgb(r: u8, g: u8, b: u8) -> Rgb {
    [r, g, b]
}

/// The heading colours of the dark palette, from level one to six.
pub open spec fn dark_headings() -> Seq<Rgb> {
    seq![
        rgb(255, 180, 100),
        rgb(230, 160, 90),
        rgb(210, 140, 80),
        rgb(190, 120, 70),
        rgb(170, 100, 60),
        rgb(150, 80, 50),
    ]
}

/// The heading colours shared by the themes modelled on one palette family:
/// an accent, the theme's own primary and secondary colour, then info,
/// success and warning.
pub open spec fn family_headings(primary: Rgb, secondary: Rgb) -> Seq<Rgb> {
    seq![
        rgb(254, 243, 199),
        primary,
        secondary,
        rgb(125, 211, 252),
        rgb(167, 243, 208),
        rgb(254, 240, 138),
    ]
}

/// The theme used when the configured one is not found.
pub open spec fn default_theme() -> ThemeView {
    ThemeView {
        name: "Default"@,
        background_color: rgb(40, 44, 52),
        text_color: rgb(220, 223, 228),
        heading_colors: dark_headings(),
    }
}

/// The themes a new configuration starts with, in the order the theme
/// selector lists them.
pub open spec fn default_themes() -> Seq<ThemeView> {
    seq![
        ThemeView {
            name: "Light"@,
            background_color: rgb(240, 240, 245),
            text_color: rgb(60, 60, 70),
            heading_colors: seq![
                rgb(100, 100, 180),
                rgb(90, 90, 170),
                rgb(80, 80, 160),
                rgb(70, 70, 150),
                rgb(60, 60, 140),
                rgb(50, 50, 130),
            ],
        },
        ThemeView {
            name: "Dark"@,
            background_color: rgb(40, 44, 52),
            text_color: rgb(220, 223, 228),
            heading_colors: dark_headings(),
        },
        ThemeView {
            name: "Solarized"@,
            background_color: rgb(0, 43, 54),
            text_color: rgb(131, 148, 150),
            heading_colors: seq![
                rgb(181, 137, 0),
                rgb(203, 75, 22),
                rgb(220, 50, 47),
                rgb(211, 54, 130),
                rgb(108, 113, 196),
                rgb(38, 139, 210),
            ],
        },
        ThemeView {
            name: "After Dark"@,
            background_color: rgb(32, 29, 101),
            text_color: rgb(172, 171, 213),
            heading_colors: family_headings(rgb(123, 121, 181), rgb(172, 171, 213)),
        },
        ThemeView {
            name: "Her"@,
            background_color: rgb(101, 29, 29),
            text_color: rgb(213, 171, 171),
            heading_colors: family_headings(rgb(181, 121, 121), rgb(213, 171, 171)),
        },
        ThemeView {
            name: "Forest"@,
            background_color: rgb(5, 46, 22),
            text_color: rgb(134, 239, 172),
            heading_colors: family_headings(rgb(74, 222, 128), rgb(134, 239, 172)),
        },
        ThemeView {
            name: "Sky"@,
            background_color: rgb(8, 47, 73),
            text_color: rgb(125, 211, 252),
            heading_colors: seq![
                rgb(254, 243, 199),
                rgb(56, 189, 248),
                rgb(125, 211, 252),
                rgb(167, 243, 208),
                rgb(254, 240, 138),
                rgb(252, 165, 165),
            ],
        },
        ThemeView {
            name: "Clays"@,
            background_color: rgb(69, 26, 3),
            text_color: rgb(245, 158, 11),
            heading_colors: family_headings(rgb(217, 119, 6), rgb(245, 158, 11)),
        },
        ThemeView {
            name: "Stones"@,
            background_color: rgb(41, 37, 36),
            text_color: rgb(156, 163, 175),
            heading_colors: family_headings(rgb(107, 114, 128), rgb(156, 163, 175)),
        },
    ]
}

/// Whether every component of `a` is above the same component of `b`.
pub open spec fn brighter(a: Rgb, b: Rgb) -> bool {
    a@[0] > b@[0] && a@[1] > b@[1] && a@[2] > b@[2]
}

/// The built-in theme named "Light" is the light one: a background of
/// [240, 240, 245], text of [60, 60, 70], so its background is brighter
/// than its text in every component. Every other built-in theme is dark:
/// its text is brighter than its background in every component. Every
/// built-in theme has six heading colours.
pub proof fn lemma_light_and_dark_themes()
    ensures
        forall|k: int| 0 <= k < default_themes().len() && default_themes()[k].name == "Light"@ ==> {
            &&& default_themes()[k].background_color@ == seq![240u8, 240u8, 245u8]
            &&& default_themes()[k].text_color@ == seq![60u8, 60u8, 70u8]
            &&& brighter(default_themes()[k].background_color, default_themes()[k].text_color)
        },
        forall|k: int| 0 <= k < default_themes().len() && default_themes()[k].name != "Light"@ ==>
            brighter(default_themes()[k].text_color, default_themes()[k].background_color),
        forall|k: int| 0 <= k < default_themes().len() ==> default_themes()[k].heading_colors.len() == 6,
        exists|k: int| 0 <= k < default_themes().len() && default_themes()[k].name == "Light"@,
{
    reveal_strlit("Light");
    reveal_strlit("Dark");
    reveal_strlit("Solarized");
    reveal_strlit("After Dark");
    reveal_strlit("Her");
    reveal_strlit("Forest");
    reveal_strlit("Sky");
    reveal_strlit("Clays");
    reveal_strlit("Stones");
    let t = default_themes();
    assert(t[0].name == "Light"@);
    assert forall|k: int| 1 <= k < t.len() implies t[k].name != "Light"@ by {
        if t[k].name.len() == 5 {
            assert(t[k].name[0] != 'L');
        }
    }
    assert forall|k: int| 0 <= k < t.len() && t[k].name == "Light"@ implies k == 0 by {
        if k != 0 {
            assert(t[k].name != "Light"@);
        }
    }
}

/// The "Default" theme is the dark palette: the built-in "Dark" theme's
/// colours under another name.
pub proof fn lemma_default_is_dark()
    ensures
        default_theme().name == "Default"@,
        default_themes()[1].name == "Dark"@,
        default_theme().background_color == default_themes()[1].background_color,
        default_theme().text_color == default_themes()[1].text_color,
        default_theme().heading_colors == default_themes()[1].heading_colors,
        brighter(default_theme().text_color, default_theme().background_color),
{
}

fn make_theme(name: &str, background_color: Rgb, text_color: Rgb, heading_colors: Vec<Rgb>) -> (r: Theme)
    ensures
        r@ == (ThemeView { name: name@, background_color, text_color, heading_colors: heading_colors@ }),
{
    Theme { name: String::from_str(name), background_color, text_color, heading_colors }
}

fn family_heading_colors(primary: Rgb, secondary: Rgb) -> (r: Vec<Rgb>)
    ensures
        r@ == family_headings(primary, secondary),
{
    let r = vec![[254, 243, 199], primary, secondary, [125, 211, 252], [167, 243, 208], [254, 240, 138]];
    assert(r@ =~= family_headings(primary, secondary));
    r
}

fn dark_heading_colors() -> (r: Vec<Rgb>)
    ensures
        r@ == dark_headings(),
{
    let r = vec![[255, 180, 100], [230, 160, 90], [210, 140, 80], [190, 120, 70], [170, 100, 60], [150, 80, 50]];
    assert(r@ =~= dark_headings());
    r
}

impl Default for Theme {
    /// The "Default" theme: the dark palette.
    fn default() -> (r: Theme)
        ensures
            r@ == default_theme(),
    {
        make_theme("Default", [40, 44, 52], [220, 223, 228], dark_heading_colors())
    }
}

impl Theme {
    /// A theme with the same name and colours.
    pub fn duplicate(&self) -> (r: Theme)
        ensures
            r@ == self@,
    {
        let mut headings: Vec<Rgb> = Vec::new();
        let n = self.heading_colors.len();
        let mut i: usize = 0;
        while i < n
            invariant
                i <= n,
                n == self.heading_colors@.len(),
                headings@ =~= self.heading_colors@.take(i as int),
            decreases n - i,
        {
            headings.push(self.heading_colors[i]);
            i = i + 1;
        }
        assert(self.heading_colors@.take(n as int) =~= self.heading_colors@);
        Theme {
            name: self.name.clone(),
            background_color: self.background_color,
            text_color: self.text_color,
            heading_colors: headings,
        }
    }

    /// The background and text colours the window takes at start-up.
    pub fn startup_colors(&self) -> (r: (Rgb, Rgb))
        ensures
            r == (self.background_color, self.text_color),
    {
        (self.background_color, self.text_color)
    }

    /// The background and text colours the window takes when the user picks
    /// this theme: the text then takes the first heading colour.
    pub fn selected_colors(&self) -> (r: (Rgb, Rgb))
        requires
            self.heading_colors@.len() > 0,
        ensures
            r == (self.background_color, self.heading_colors@[0]),
    {
        (self.background_color, self.heading_colors[0])
    }
}

/// The themes a new configuration starts with.
pub fn create_default_themes() -> (r: Vec<Theme>)
    ensures
        themes_view(r@) == default_themes(),
{
    let mut r: Vec<Theme> = Vec::new();
    r.push(
        make_theme(
            "Light",
            [240, 240, 245],
            [60, 60, 70],
            vec![[100, 100, 180], [90, 90, 170], [80, 80, 160], [70, 70, 150], [60, 60, 140], [50, 50, 130]],
        ),
    );
    r.push(make_theme("Dark", [40, 44, 52], [220, 223, 228], dark_heading_colors()));
    r.push(
        make_theme(
            "Solarized",
            [0, 43, 54],
            [131, 148, 150],
            vec![[181, 137, 0], [203, 75, 22], [220, 50, 47], [211, 54, 130], [108, 113, 196], [38, 139, 210]],
        ),
    );
    r.push(make_theme("After Dark", [32, 29, 101], [172, 171, 213], family_heading_colors([123, 121, 181], [172, 171, 213])));
    r.push(make_theme("Her", [101, 29, 29], [213, 171, 171], family_heading_colors([181, 121, 121], [213, 171, 171])));
    r.push(make_theme("Forest", [5, 46, 22], [134, 239, 172], family_heading_colors([74, 222, 128], [134, 239, 172])));
    r.push(
        make_theme(
            "Sky",
            [8, 47, 73],
            [125, 211, 252],
            vec![[254, 243, 199], [56, 189, 248], [125, 211, 252], [167, 243, 208], [254, 240, 138], [252, 165, 165]],
        ),
    );
    r.push(make_theme("Clays", [69, 26, 3], [245, 158, 11], family_heading_colors([217, 119, 6], [245, 158, 11])));
    r.push(make_theme("Stones", [41, 37, 36], [156, 163, 175], family_heading_colors([107, 114, 128], [156, 163, 175])));
    assert(themes_view(r@) =~= default_themes());
    r
}

} // verus!
