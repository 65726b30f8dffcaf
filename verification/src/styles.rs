use vstd::prelude::*;

verus! {

/// The piece sets that the board can be drawn with.
#[derive(Debug, Clone, Copy, PartialEq, Eq, Structural)]
pub enum PieceTheme {
    Cburnett,
    Alpha,
    Merida,
    California,
    Cardinal,
    Governor,
    Dubrovny,
    Gioco,
    Icpieces,
    Maestro,
    Staunty,
    Tatiana,
    FontAlpha,
}

impl PieceTheme {
    /// The name under which the piece set is shown and stored on disk.
    pub open spec fn spec_name(self) -> Seq<char> {
        match self {
            PieceTheme::Alpha => "alpha"@,
            PieceTheme::Merida => "merida"@,
            PieceTheme::California => "california"@,
            PieceTheme::Cardinal => "cardinal"@,
            PieceTheme::Governor => "governor"@,
            PieceTheme::Dubrovny => "dubrovny"@,
            PieceTheme::Gioco => "gioco"@,
            PieceTheme::Icpieces => "icpieces"@,
            PieceTheme::Maestro => "maestro"@,
            PieceTheme::Staunty => "staunty"@,
            PieceTheme::Tatiana => "tatiana"@,
            PieceTheme::FontAlpha => "Paper - chess alpha"@,
            PieceTheme::Cburnett => "cburnett"@,
        }
    }

    /// The displayed name of the piece set (also the directory of its images).
    pub fn name(&self) -> (r: &'static str)
        ensures
            r@ == self.spec_name(),
    {
        match self {
            PieceTheme::Alpha => "alpha",
            PieceTheme::Merida => "merida",
            PieceTheme::California => "california",
            PieceTheme::Cardinal => "cardinal",
            PieceTheme::Governor => "governor",
            PieceTheme::Dubrovny => "dubrovny",
            PieceTheme::Gioco => "gioco",
            PieceTheme::Icpieces => "icpieces",
            PieceTheme::Maestro => "maestro",
            PieceTheme::Staunty => "staunty",
            PieceTheme::Tatiana => "tatiana",
            PieceTheme::FontAlpha => "Paper - chess alpha",
            PieceTheme::Cburnett => "cburnett",
        }
    }
}

/// The colour themes of the board and the interface.
#[derive(Debug, Clone, Copy, PartialEq, Eq, Structural)]
pub enum BoardTheme {
    Blue,
    Green,
    Brown,
    Purple,
    Red,
    Grey,
    MonochromeGrey,
    BlueDark,
    GreenDark,
    BrownDark,
    PurpleDark,
    RedDark,
    GreyDark,
    MonochromeGreyDark,
    Trans,
    Enby,
}

impl BoardTheme {
    /// The name the theme is shown under.
    pub open spec fn spec_name(self) -> Seq<char> {
        match self {
            BoardTheme::Blue => "Blue"@,
            BoardTheme::Green => "Green"@,
            BoardTheme::Brown => "Brown"@,
            BoardTheme::Purple => "Purple"@,
            BoardTheme::Red => "Red"@,
            BoardTheme::Grey => "Grey"@,
            BoardTheme::MonochromeGrey => "Monochrome Grey"@,
            BoardTheme::BlueDark => "Blue - Dark Mode"@,
            BoardTheme::GreenDark => "Green - Dark Mode"@,
            BoardTheme::BrownDark => "Brown - Dark Mode"@,
            BoardTheme::PurpleDark => "Purple - Dark Mode"@,
            BoardTheme::RedDark => "Red - Dark Mode"@,
            BoardTheme::GreyDark => "Grey - Dark Mode"@,
            BoardTheme::MonochromeGreyDark => "Monochrome Grey - Dark"@,
            BoardTheme::Trans => "Trans colors"@,
            BoardTheme::Enby => "NB colors"@,
        }
    }

    /// The name the theme is shown under.
    pub fn name(&self) -> (r: &'static str)
        ensures
            r@ == self.spec_name(),
    {
        match self {
            BoardTheme::Blue => "Blue",
            BoardTheme::Green => "Green",
            BoardTheme::Brown => "Brown",
            BoardTheme::Purple => "Purple",
            BoardTheme::Red => "Red",
            BoardTheme::Grey => "Grey",
            BoardTheme::MonochromeGrey => "Monochrome Grey",
            BoardTheme::BlueDark => "Blue - Dark Mode",
            BoardTheme::GreenDark => "Green - Dark Mode",
            BoardTheme::BrownDark => "Brown - Dark Mode",
            BoardTheme::PurpleDark => "Purple - Dark Mode",
            BoardTheme::RedDark => "Red - Dark Mode",
            BoardTheme::GreyDark => "Grey - Dark Mode",
            BoardTheme::MonochromeGreyDark => "Monochrome Grey - Dark",
            BoardTheme::Trans => "Trans colors",
            BoardTheme::Enby => "NB colors",
        }
    }
}

/// The board theme of the application (the name the interface uses for it).
pub type Theme = BoardTheme;

impl Default for BoardTheme {
    /// The blue theme.
    fn default() -> (r: BoardTheme)
        ensures
            r == BoardTheme::Blue,
    {
        BoardTheme::Blue
    }
}

/// Every board theme, in the order the theme picker lists them.
pub open spec fn all_board_themes() -> Seq<BoardTheme> {
    seq![
        BoardTheme::Blue,
        BoardTheme::Green,
        BoardTheme::Brown,
        BoardTheme::Purple,
        BoardTheme::Red,
        BoardTheme::Grey,
        BoardTheme::MonochromeGrey,
        BoardTheme::BlueDark,
        BoardTheme::GreenDark,
        BoardTheme::BrownDark,
        BoardTheme::PurpleDark,
        BoardTheme::RedDark,
        BoardTheme::GreyDark,
        BoardTheme::MonochromeGreyDark,
        BoardTheme::Trans,
        BoardTheme::Enby,
    ]
}

impl BoardTheme {
    /// Every board theme, in the order the theme picker lists them.
    pub fn all() -> (r: Vec<BoardTheme>)
        ensures
            r@ == all_board_themes(),
    {
        let r = vec![
            BoardTheme::Blue,
            BoardTheme::Green,
            BoardTheme::Brown,
            BoardTheme::Purple,
            BoardTheme::Red,
            BoardTheme::Grey,
            BoardTheme::MonochromeGrey,
            BoardTheme::BlueDark,
            BoardTheme::GreenDark,
            BoardTheme::BrownDark,
            BoardTheme::PurpleDark,
            BoardTheme::RedDark,
            BoardTheme::GreyDark,
            BoardTheme::MonochromeGreyDark,
            BoardTheme::Trans,
            BoardTheme::Enby,
        ];
        proof {
            assert(r@ =~= all_board_themes());
        }
        r
    }
}

/// The themes of an earlier palette set, kept with their names.
#[derive(Debug, Clone, Copy, PartialEq, Eq, Structural)]
pub enum OCPTheme {
    Blue,
    Green,
    Brown,
    Purple,
    Grey,
    MonochromeGrey,
    BlueDark,
    GreenDark,
    BrownDark,
    PurpleDark,
    GreyDark,
    MonochromeGreyDark,
    Trans,
}

impl OCPTheme {
    /// The name the theme is shown under.
    pub open spec fn spec_name(self) -> Seq<char> {
        match self {
            OCPTheme::Blue => "Blue"@,
            OCPTheme::Green => "Green"@,
            OCPTheme::Brown => "Brown"@,
            OCPTheme::Purple => "Purple"@,
            OCPTheme::Grey => "Grey"@,
            OCPTheme::MonochromeGrey => "Monochrome Grey"@,
            OCPTheme::BlueDark => "Blue - Dark Mode"@,
            OCPTheme::GreenDark => "Green - Dark Mode"@,
            OCPTheme::BrownDark => "Brown - Dark Mode"@,
            OCPTheme::PurpleDark => "Purple - Dark Mode"@,
            OCPTheme::GreyDark => "Grey - Dark Mode"@,
            OCPTheme::MonochromeGreyDark => "Monochrome Grey - Dark"@,
            OCPTheme::Trans => "Trans"@,
        }
    }

    /// The name the theme is shown under.
    pub fn name(&self) -> (r: &'static str)
        ensures
            r@ == self.spec_name(),
    {
        match self {
            OCPTheme::Blue => "Blue",
            OCPTheme::Green => "Green",
            OCPTheme::Brown => "Brown",
            OCPTheme::Purple => "Purple",
            OCPTheme::Grey => "Grey",
            OCPTheme::MonochromeGrey => "Monochrome Grey",
            OCPTheme::BlueDark => "Blue - Dark Mode",
            OCPTheme::GreenDark => "Green - Dark Mode",
            OCPTheme::BrownDark => "Brown - Dark Mode",
            OCPTheme::PurpleDark => "Purple - Dark Mode",
            OCPTheme::GreyDark => "Grey - Dark Mode",
            OCPTheme::MonochromeGreyDark => "Monochrome Grey - Dark",
            OCPTheme::Trans => "Trans",
        }
    }
}

impl Default for OCPTheme {
    /// The blue theme.
    fn default() -> (r: OCPTheme)
        ensures
            r == OCPTheme::Blue,
    {
        OCPTheme::Blue
    }
}

/// Every piece set, in the order the piece-set picker lists them.
pub open spec fn all_piece_themes() -> Seq<PieceTheme> {
    seq![
        PieceTheme::Cburnett,
        PieceTheme::Alpha,
        PieceTheme::Merida,
        PieceTheme::California,
        PieceTheme::Cardinal,
        PieceTheme::Governor,
        PieceTheme::Dubrovny,
        PieceTheme::Gioco,
        PieceTheme::Icpieces,
        PieceTheme::Maestro,
        PieceTheme::Staunty,
        PieceTheme::Tatiana,
        PieceTheme::FontAlpha,
    ]
}

impl PieceTheme {
    /// Every piece set, in the order the piece-set picker lists them.
    pub fn all() -> (r: Vec<PieceTheme>)
        ensures
            r@ == all_piece_themes(),
    {
        let r = vec![
            PieceTheme::Cburnett,
            PieceTheme::Alpha,
            PieceTheme::Merida,
            PieceTheme::California,
            PieceTheme::Cardinal,
            PieceTheme::Governor,
            PieceTheme::Dubrovny,
            PieceTheme::Gioco,
            PieceTheme::Icpieces,
            PieceTheme::Maestro,
            PieceTheme::Staunty,
            PieceTheme::Tatiana,
            PieceTheme::FontAlpha,
        ];
        proof {
            assert(r@ =~= all_piece_themes());
        }
        r
    }
}

} // verus!
