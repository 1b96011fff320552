//! The ARIA role of an accessibility node.
//!
//! The variants are the roles of the AccessKit accessibility schema: those of
//! the schema's recent releases, which the rules for accessible names speak
//! of (`GridCell`, `SectionHeader` and `SectionFooter` among them), followed
//! by the roles that earlier releases have and recent ones dropped. A role of
//! either kind of release converts to the variant of the same name.

use vstd::prelude::*;

verus! {

/// The role of a node in the accessibility tree.
#[derive(Clone, Copy, Debug, PartialEq, Eq, Structural, Hash)]
pub enum Role {
    Unknown,
    TextRun,
    Cell,
    Label,
    Image,
    Link,
    Row,
    ListItem,
    ListMarker,
    TreeItem,
    ListBoxOption,
    MenuItem,
    MenuListOption,
    Paragraph,
    GenericContainer,
    CheckBox,
    RadioButton,
    TextInput,
    Button,
    DefaultButton,
    Pane,
    RowHeader,
    ColumnHeader,
    RowGroup,
    List,
    Table,
    LayoutTableCell,
    LayoutTableRow,
    LayoutTable,
    Switch,
    Menu,
    MultilineTextInput,
    SearchInput,
    DateInput,
    DateTimeInput,
    WeekInput,
    MonthInput,
    TimeInput,
    EmailInput,
    NumberInput,
    PasswordInput,
    PhoneNumberInput,
    UrlInput,
    Abbr,
    Alert,
    AlertDialog,
    Application,
    Article,
    Audio,
    Banner,
    Blockquote,
    Canvas,
    Caption,
    Caret,
    Code,
    ColorWell,
    ComboBox,
    EditableComboBox,
    Complementary,
    Comment,
    ContentDeletion,
    ContentInsertion,
    ContentInfo,
    Definition,
    DescriptionList,
    Details,
    Dialog,
    DisclosureTriangle,
    Document,
    EmbeddedObject,
    Emphasis,
    Feed,
    FigureCaption,
    Figure,
    Footer,
    Form,
    Grid,
    GridCell,
    Group,
    Header,
    Heading,
    Iframe,
    IframePresentational,
    ImeCandidate,
    Keyboard,
    Legend,
    LineBreak,
    ListBox,
    Log,
    Main,
    Mark,
    Marquee,
    Math,
    MenuBar,
    MenuItemCheckBox,
    MenuItemRadio,
    MenuListPopup,
    Meter,
    Navigation,
    Note,
    PluginObject,
    ProgressIndicator,
    RadioGroup,
    Region,
    RootWebArea,
    Ruby,
    RubyAnnotation,
    ScrollBar,
    ScrollView,
    Search,
    Section,
    SectionFooter,
    SectionHeader,
    Slider,
    SpinButton,
    Splitter,
    Status,
    Strong,
    Suggestion,
    SvgRoot,
    Tab,
    TabList,
    TabPanel,
    Term,
    Time,
    Timer,
    TitleBar,
    Toolbar,
    Tooltip,
    Tree,
    TreeGrid,
    Video,
    WebView,
    Window,
    PdfActionableHighlight,
    PdfRoot,
    GraphicsDocument,
    GraphicsObject,
    GraphicsSymbol,
    DocAbstract,
    DocAcknowledgements,
    DocAfterword,
    DocAppendix,
    DocBackLink,
    DocBiblioEntry,
    DocBibliography,
    DocBiblioRef,
    DocChapter,
    DocColophon,
    DocConclusion,
    DocCover,
    DocCredit,
    DocCredits,
    DocDedication,
    DocEndnote,
    DocEndnotes,
    DocEpigraph,
    DocEpilogue,
    DocErrata,
    DocExample,
    DocFootnote,
    DocForeword,
    DocGlossary,
    DocGlossRef,
    DocIndex,
    DocIntroduction,
    DocNoteRef,
    DocNotice,
    DocPageBreak,
    DocPageFooter,
    DocPageHeader,
    DocPageList,
    DocPart,
    DocPreface,
    DocPrologue,
    DocPullquote,
    DocQna,
    DocSubtitle,
    DocTip,
    DocToc,
    ListGrid,
    Terminal,
    DescriptionListDetail,
    DescriptionListTerm,
    Directory,
    FooterAsNonLandmark,
    HeaderAsNonLandmark,
    Portal,
    Pre,
}

/// The name of a role, as it is written in the schema.
pub open spec fn role_name(role: Role) -> Seq<char> {
    match role {
        Role::Unknown => "Unknown"@,
        Role::TextRun => "TextRun"@,
        Role::Cell => "Cell"@,
        Role::Label => "Label"@,
        Role::Image => "Image"@,
        Role::Link => "Link"@,
        Role::Row => "Row"@,
        Role::ListItem => "ListItem"@,
        Role::ListMarker => "ListMarker"@,
        Role::TreeItem => "TreeItem"@,
        Role::ListBoxOption => "ListBoxOption"@,
        Role::MenuItem => "MenuItem"@,
        Role::MenuListOption => "MenuListOption"@,
        Role::Paragraph => "Paragraph"@,
        Role::GenericContainer => "GenericContainer"@,
        Role::CheckBox => "CheckBox"@,
        Role::RadioButton => "RadioButton"@,
        Role::TextInput => "TextInput"@,
        Role::Button => "Button"@,
        Role::DefaultButton => "DefaultButton"@,
        Role::Pane => "Pane"@,
        Role::RowHeader => "RowHeader"@,
        Role::ColumnHeader => "ColumnHeader"@,
        Role::RowGroup => "RowGroup"@,
        Role::List => "List"@,
        Role::Table => "Table"@,
        Role::LayoutTableCell => "LayoutTableCell"@,
        Role::LayoutTableRow => "LayoutTableRow"@,
        Role::LayoutTable => "LayoutTable"@,
        Role::Switch => "Switch"@,
        Role::Menu => "Menu"@,
        Role::MultilineTextInput => "MultilineTextInput"@,
        Role::SearchInput => "SearchInput"@,
        Role::DateInput => "DateInput"@,
        Role::DateTimeInput => "DateTimeInput"@,
        Role::WeekInput => "WeekInput"@,
        Role::MonthInput => "MonthInput"@,
        Role::TimeInput => "TimeInput"@,
        Role::EmailInput => "EmailInput"@,
        Role::NumberInput => "NumberInput"@,
        Role::PasswordInput => "PasswordInput"@,
        Role::PhoneNumberInput => "PhoneNumberInput"@,
        Role::UrlInput => "UrlInput"@,
        Role::Abbr => "Abbr"@,
        Role::Alert => "Alert"@,
        Role::AlertDialog => "AlertDialog"@,
        Role::Application => "Application"@,
        Role::Article => "Article"@,
        Role::Audio => "Audio"@,
        Role::Banner => "Banner"@,
        Role::Blockquote => "Blockquote"@,
        Role::Canvas => "Canvas"@,
        Role::Caption => "Caption"@,
        Role::Caret => "Caret"@,
        Role::Code => "Code"@,
        Role::ColorWell => "ColorWell"@,
        Role::ComboBox => "ComboBox"@,
        Role::EditableComboBox => "EditableComboBox"@,
        Role::Complementary => "Complementary"@,
        Role::Comment => "Comment"@,
        Role::ContentDeletion => "ContentDeletion"@,
        Role::ContentInsertion => "ContentInsertion"@,
        Role::ContentInfo => "ContentInfo"@,
        Role::Definition => "Definition"@,
        Role::DescriptionList => "DescriptionList"@,
        Role::Details => "Details"@,
        Role::Dialog => "Dialog"@,
        Role::DisclosureTriangle => "DisclosureTriangle"@,
        Role::Document => "Document"@,
        Role::EmbeddedObject => "EmbeddedObject"@,
        Role::Emphasis => "Emphasis"@,
        Role::Feed => "Feed"@,
        Role::FigureCaption => "FigureCaption"@,
        Role::Figure => "Figure"@,
        Role::Footer => "Footer"@,
        Role::Form => "Form"@,
        Role::Grid => "Grid"@,
        Role::GridCell => "GridCell"@,
        Role::Group => "Group"@,
        Role::Header => "Header"@,
        Role::Heading => "Heading"@,
        Role::Iframe => "Iframe"@,
        Role::IframePresentational => "IframePresentational"@,
        Role::ImeCandidate => "ImeCandidate"@,
        Role::Keyboard => "Keyboard"@,
        Role::Legend => "Legend"@,
        Role::LineBreak => "LineBreak"@,
        Role::ListBox => "ListBox"@,
        Role::Log => "Log"@,
        Role::Main => "Main"@,
        Role::Mark => "Mark"@,
        Role::Marquee => "Marquee"@,
        Role::Math => "Math"@,
        Role::MenuBar => "MenuBar"@,
        Role::MenuItemCheckBox => "MenuItemCheckBox"@,
        Role::MenuItemRadio => "MenuItemRadio"@,
        Role::MenuListPopup => "MenuListPopup"@,
        Role::Meter => "Meter"@,
        Role::Navigation => "Navigation"@,
        Role::Note => "Note"@,
        Role::PluginObject => "PluginObject"@,
        Role::ProgressIndicator => "ProgressIndicator"@,
        Role::RadioGroup => "RadioGroup"@,
        Role::Region => "Region"@,
        Role::RootWebArea => "RootWebArea"@,
        Role::Ruby => "Ruby"@,
        Role::RubyAnnotation => "RubyAnnotation"@,
        Role::ScrollBar => "ScrollBar"@,
        Role::ScrollView => "ScrollView"@,
        Role::Search => "Search"@,
        Role::Section => "Section"@,
        Role::SectionFooter => "SectionFooter"@,
        Role::SectionHeader => "SectionHeader"@,
        Role::Slider => "Slider"@,
        Role::SpinButton => "SpinButton"@,
        Role::Splitter => "Splitter"@,
        Role::Status => "Status"@,
        Role::Strong => "Strong"@,
        Role::Suggestion => "Suggestion"@,
        Role::SvgRoot => "SvgRoot"@,
        Role::Tab => "Tab"@,
        Role::TabList => "TabList"@,
        Role::TabPanel => "TabPanel"@,
        Role::Term => "Term"@,
        Role::Time => "Time"@,
        Role::Timer => "Timer"@,
        Role::TitleBar => "TitleBar"@,
        Role::Toolbar => "Toolbar"@,
        Role::Tooltip => "Tooltip"@,
        Role::Tree => "Tree"@,
        Role::TreeGrid => "TreeGrid"@,
        Role::Video => "Video"@,
        Role::WebView => "WebView"@,
        Role::Window => "Window"@,
        Role::PdfActionableHighlight => "PdfActionableHighlight"@,
        Role::PdfRoot => "PdfRoot"@,
        Role::GraphicsDocument => "GraphicsDocument"@,
        Role::GraphicsObject => "GraphicsObject"@,
        Role::GraphicsSymbol => "GraphicsSymbol"@,
        Role::DocAbstract => "DocAbstract"@,
        Role::DocAcknowledgements => "DocAcknowledgements"@,
        Role::DocAfterword => "DocAfterword"@,
        Role::DocAppendix => "DocAppendix"@,
        Role::DocBackLink => "DocBackLink"@,
        Role::DocBiblioEntry => "DocBiblioEntry"@,
        Role::DocBibliography => "DocBibliography"@,
        Role::DocBiblioRef => "DocBiblioRef"@,
        Role::DocChapter => "DocChapter"@,
        Role::DocColophon => "DocColophon"@,
        Role::DocConclusion => "DocConclusion"@,
        Role::DocCover => "DocCover"@,
        Role::DocCredit => "DocCredit"@,
        Role::DocCredits => "DocCredits"@,
        Role::DocDedication => "DocDedication"@,
        Role::DocEndnote => "DocEndnote"@,
        Role::DocEndnotes => "DocEndnotes"@,
        Role::DocEpigraph => "DocEpigraph"@,
        Role::DocEpilogue => "DocEpilogue"@,
        Role::DocErrata => "DocErrata"@,
        Role::DocExample => "DocExample"@,
        Role::DocFootnote => "DocFootnote"@,
        Role::DocForeword => "DocForeword"@,
        Role::DocGlossary => "DocGlossary"@,
        Role::DocGlossRef => "DocGlossRef"@,
        Role::DocIndex => "DocIndex"@,
        Role::DocIntroduction => "DocIntroduction"@,
        Role::DocNoteRef => "DocNoteRef"@,
        Role::DocNotice => "DocNotice"@,
        Role::DocPageBreak => "DocPageBreak"@,
        Role::DocPageFooter => "DocPageFooter"@,
        Role::DocPageHeader => "DocPageHeader"@,
        Role::DocPageList => "DocPageList"@,
        Role::DocPart => "DocPart"@,
        Role::DocPreface => "DocPreface"@,
        Role::DocPrologue => "DocPrologue"@,
        Role::DocPullquote => "DocPullquote"@,
        Role::DocQna => "DocQna"@,
        Role::DocSubtitle => "DocSubtitle"@,
        Role::DocTip => "DocTip"@,
        Role::DocToc => "DocToc"@,
        Role::ListGrid => "ListGrid"@,
        Role::Terminal => "Terminal"@,
        Role::DescriptionListDetail => "DescriptionListDetail"@,
        Role::DescriptionListTerm => "DescriptionListTerm"@,
        Role::Directory => "Directory"@,
        Role::FooterAsNonLandmark => "FooterAsNonLandmark"@,
        Role::HeaderAsNonLandmark => "HeaderAsNonLandmark"@,
        Role::Portal => "Portal"@,
        Role::Pre => "Pre"@,
    }
}

/// The roles whose accessible name may be computed from the content of the
/// node, after <https://w3c.github.io/aria/#namefromcontent>.
pub open spec fn spec_supports_name_from_content(role: Role) -> bool {
    role == Role::Button
        || role == Role::Cell
        || role == Role::CheckBox
        || role == Role::ColumnHeader
        || role == Role::Comment
        || role == Role::GridCell
        || role == Role::Heading
        || role == Role::Link
        || role == Role::MenuItem
        || role == Role::MenuItemCheckBox
        || role == Role::MenuItemRadio
        || role == Role::ListBoxOption
        || role == Role::RadioButton
        || role == Role::Row
        || role == Role::RowHeader
        || role == Role::Switch
        || role == Role::Tab
        || role == Role::TreeItem
}

impl Role {
    /// Returns the name of this role, as it is written in the schema.
    pub fn name(&self) -> (res: &'static str)
        ensures
            res@ == role_name(*self),
    {
        match self {
            Role::Unknown => "Unknown",
            Role::TextRun => "TextRun",
            Role::Cell => "Cell",
            Role::Label => "Label",
            Role::Image => "Image",
            Role::Link => "Link",
            Role::Row => "Row",
            Role::ListItem => "ListItem",
            Role::ListMarker => "ListMarker",
            Role::TreeItem => "TreeItem",
            Role::ListBoxOption => "ListBoxOption",
            Role::MenuItem => "MenuItem",
            Role::MenuListOption => "MenuListOption",
            Role::Paragraph => "Paragraph",
            Role::GenericContainer => "GenericContainer",
            Role::CheckBox => "CheckBox",
            Role::RadioButton => "RadioButton",
            Role::TextInput => "TextInput",
            Role::Button => "Button",
            Role::DefaultButton => "DefaultButton",
            Role::Pane => "Pane",
            Role::RowHeader => "RowHeader",
            Role::ColumnHeader => "ColumnHeader",
            Role::RowGroup => "RowGroup",
            Role::List => "List",
            Role::Table => "Table",
            Role::LayoutTableCell => "LayoutTableCell",
            Role::LayoutTableRow => "LayoutTableRow",
            Role::LayoutTable => "LayoutTable",
            Role::Switch => "Switch",
            Role::Menu => "Menu",
            Role::MultilineTextInput => "MultilineTextInput",
            Role::SearchInput => "SearchInput",
            Role::DateInput => "DateInput",
            Role::DateTimeInput => "DateTimeInput",
            Role::WeekInput => "WeekInput",
            Role::MonthInput => "MonthInput",
            Role::TimeInput => "TimeInput",
            Role::EmailInput => "EmailInput",
            Role::NumberInput => "NumberInput",
            Role::PasswordInput => "PasswordInput",
            Role::PhoneNumberInput => "PhoneNumberInput",
            Role::UrlInput => "UrlInput",
            Role::Abbr => "Abbr",
            Role::Alert => "Alert",
            Role::AlertDialog => "AlertDialog",
            Role::Application => "Application",
            Role::Article => "Article",
            Role::Audio => "Audio",
            Role::Banner => "Banner",
            Role::Blockquote => "Blockquote",
            Role::Canvas => "Canvas",
            Role::Caption => "Caption",
            Role::Caret => "Caret",
            Role::Code => "Code",
            Role::ColorWell => "ColorWell",
            Role::ComboBox => "ComboBox",
            Role::EditableComboBox => "EditableComboBox",
            Role::Complementary => "Complementary",
            Role::Comment => "Comment",
            Role::ContentDeletion => "ContentDeletion",
            Role::ContentInsertion => "ContentInsertion",
            Role::ContentInfo => "ContentInfo",
            Role::Definition => "Definition",
            Role::DescriptionList => "DescriptionList",
            Role::Details => "Details",
            Role::Dialog => "Dialog",
            Role::DisclosureTriangle => "DisclosureTriangle",
            Role::Document => "Document",
            Role::EmbeddedObject => "EmbeddedObject",
            Role::Emphasis => "Emphasis",
            Role::Feed => "Feed",
            Role::FigureCaption => "FigureCaption",
            Role::Figure => "Figure",
            Role::Footer => "Footer",
            Role::Form => "Form",
            Role::Grid => "Grid",
            Role::GridCell => "GridCell",
            Role::Group => "Group",
            Role::Header => "Header",
            Role::Heading => "Heading",
            Role::Iframe => "Iframe",
            Role::IframePresentational => "IframePresentational",
            Role::ImeCandidate => "ImeCandidate",
            Role::Keyboard => "Keyboard",
            Role::Legend => "Legend",
            Role::LineBreak => "LineBreak",
            Role::ListBox => "ListBox",
            Role::Log => "Log",
            Role::Main => "Main",
            Role::Mark => "Mark",
            Role::Marquee => "Marquee",
            Role::Math => "Math",
            Role::MenuBar => "MenuBar",
            Role::MenuItemCheckBox => "MenuItemCheckBox",
            Role::MenuItemRadio => "MenuItemRadio",
            Role::MenuListPopup => "MenuListPopup",
            Role::Meter => "Meter",
            Role::Navigation => "Navigation",
            Role::Note => "Note",
            Role::PluginObject => "PluginObject",
            Role::ProgressIndicator => "ProgressIndicator",
            Role::RadioGroup => "RadioGroup",
            Role::Region => "Region",
            Role::RootWebArea => "RootWebArea",
            Role::Ruby => "Ruby",
            Role::RubyAnnotation => "RubyAnnotation",
            Role::ScrollBar => "ScrollBar",
            Role::ScrollView => "ScrollView",
            Role::Search => "Search",
            Role::Section => "Section",
            Role::SectionFooter => "SectionFooter",
            Role::SectionHeader => "SectionHeader",
            Role::Slider => "Slider",
            Role::SpinButton => "SpinButton",
            Role::Splitter => "Splitter",
            Role::Status => "Status",
            Role::Strong => "Strong",
            Role::Suggestion => "Suggestion",
            Role::SvgRoot => "SvgRoot",
            Role::Tab => "Tab",
            Role::TabList => "TabList",
            Role::TabPanel => "TabPanel",
            Role::Term => "Term",
            Role::Time => "Time",
            Role::Timer => "Timer",
            Role::TitleBar => "TitleBar",
            Role::Toolbar => "Toolbar",
            Role::Tooltip => "Tooltip",
            Role::Tree => "Tree",
            Role::TreeGrid => "TreeGrid",
            Role::Video => "Video",
            Role::WebView => "WebView",
            Role::Window => "Window",
            Role::PdfActionableHighlight => "PdfActionableHighlight",
            Role::PdfRoot => "PdfRoot",
            Role::GraphicsDocument => "GraphicsDocument",
            Role::GraphicsObject => "GraphicsObject",
            Role::GraphicsSymbol => "GraphicsSymbol",
            Role::DocAbstract => "DocAbstract",
            Role::DocAcknowledgements => "DocAcknowledgements",
            Role::DocAfterword => "DocAfterword",
            Role::DocAppendix => "DocAppendix",
            Role::DocBackLink => "DocBackLink",
            Role::DocBiblioEntry => "DocBiblioEntry",
            Role::DocBibliography => "DocBibliography",
            Role::DocBiblioRef => "DocBiblioRef",
            Role::DocChapter => "DocChapter",
            Role::DocColophon => "DocColophon",
            Role::DocConclusion => "DocConclusion",
            Role::DocCover => "DocCover",
            Role::DocCredit => "DocCredit",
            Role::DocCredits => "DocCredits",
            Role::DocDedication => "DocDedication",
            Role::DocEndnote => "DocEndnote",
            Role::DocEndnotes => "DocEndnotes",
            Role::DocEpigraph => "DocEpigraph",
            Role::DocEpilogue => "DocEpilogue",
            Role::DocErrata => "DocErrata",
            Role::DocExample => "DocExample",
            Role::DocFootnote => "DocFootnote",
            Role::DocForeword => "DocForeword",
            Role::DocGlossary => "DocGlossary",
            Role::DocGlossRef => "DocGlossRef",
            Role::DocIndex => "DocIndex",
            Role::DocIntroduction => "DocIntroduction",
            Role::DocNoteRef => "DocNoteRef",
            Role::DocNotice => "DocNotice",
            Role::DocPageBreak => "DocPageBreak",
            Role::DocPageFooter => "DocPageFooter",
            Role::DocPageHeader => "DocPageHeader",
            Role::DocPageList => "DocPageList",
            Role::DocPart => "DocPart",
            Role::DocPreface => "DocPreface",
            Role::DocPrologue => "DocPrologue",
            Role::DocPullquote => "DocPullquote",
            Role::DocQna => "DocQna",
            Role::DocSubtitle => "DocSubtitle",
            Role::DocTip => "DocTip",
            Role::DocToc => "DocToc",
            Role::ListGrid => "ListGrid",
            Role::Terminal => "Terminal",
            Role::DescriptionListDetail => "DescriptionListDetail",
            Role::DescriptionListTerm => "DescriptionListTerm",
            Role::Directory => "Directory",
            Role::FooterAsNonLandmark => "FooterAsNonLandmark",
            Role::HeaderAsNonLandmark => "HeaderAsNonLandmark",
            Role::Portal => "Portal",
            Role::Pre => "Pre",
        }
    }

    /// Whether a node with this role may take its accessible name from its
    /// content.
    pub fn supports_name_from_content(&self) -> (res: bool)
        ensures
            res == spec_supports_name_from_content(*self),
    {
        match self {
            Role::Button
            | Role::Cell
            | Role::CheckBox
            | Role::ColumnHeader
            | Role::Comment
            | Role::GridCell
            | Role::Heading
            | Role::Link
            | Role::MenuItem
            | Role::MenuItemCheckBox
            | Role::MenuItemRadio
            | Role::ListBoxOption
            | Role::RadioButton
            | Role::Row
            | Role::RowHeader
            | Role::Switch
            | Role::Tab
            | Role::TreeItem => true,
            _ => false,
        }
    }
}

} // verus!
