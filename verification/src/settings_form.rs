//! What the fields of the settings window amount to when they are saved.

use vstd::prelude::*;

use crate::settings::parse_u16;
use crate::text;

verus! {

/// The fields as they are. A selection is the index that the system reports, negative for none;
/// `brush_width_is_number` says whether that field holds a number.
#[derive(Debug)]
pub struct FormFields {
    pub port: String,
    pub screen: isize,
    pub monitor_count: usize,
    pub view: isize,
    pub canvas_aspect: String,
    pub obs_websocket_url: String,
    pub obs_websocket_password: String,
    pub brush_color: String,
    pub brush_width_is_number: bool,
}

/// What the fields amount to.
#[derive(Debug)]
pub struct FormValues {
    pub port: u16,
    pub screen: usize,
    pub projector_view: &'static str,
    pub canvas_aspect: String,
    pub obs_websocket_url: String,
    pub obs_websocket_password: String,
    pub brush_color: String,
}

#[derive(Clone, Copy, Debug, PartialEq, Eq, Structural)]
pub enum FormError {
    Port,
    NothingSelected,
    UnknownMonitor,
    UnknownView,
    BrushWidth,
}

impl FormError {
    pub open spec fn text(self) -> Seq<char> {
        match self {
            FormError::Port => "ローカルサーバーのポートには 1〜65535 を指定してください"@,
            FormError::NothingSelected => "選択されていない設定項目があります"@,
            FormError::UnknownMonitor => "選択したモニターが見つかりません"@,
            FormError::UnknownView => "プロジェクター表示を選択してください"@,
            FormError::BrushWidth => "ブラシ幅には数値を指定してください"@,
        }
    }

    pub fn message(self) -> (message: String)
        ensures
            message@ == self.text(),
    {
        match self {
            FormError::Port => "ローカルサーバーのポートには 1〜65535 を指定してください".to_owned(),
            FormError::NothingSelected => "選択されていない設定項目があります".to_owned(),
            FormError::UnknownMonitor => "選択したモニターが見つかりません".to_owned(),
            FormError::UnknownView => "プロジェクター表示を選択してください".to_owned(),
            FormError::BrushWidth => "ブラシ幅には数値を指定してください".to_owned(),
        }
    }
}

/// The index that was selected, if any.
pub fn selected_index(selection: isize) -> (index: Option<usize>)
    ensures
        selection < 0 ==> index is None,
        selection >= 0 ==> index == Some(selection as usize),
{
    if selection < 0 {
        None
    } else {
        Some(selection as usize)
    }
}

impl FormFields {
    /// What is wrong with the fields, if anything: the first that is, in their order.
    pub open spec fn error(self) -> Option<FormError> {
        if crate::settings::parsed_u16(text::trimmed(self.port@)) is None {
            Some(FormError::Port)
        } else if self.screen < 0 {
            Some(FormError::NothingSelected)
        } else if self.screen >= self.monitor_count {
            Some(FormError::UnknownMonitor)
        } else if self.view < 0 {
            Some(FormError::NothingSelected)
        } else if self.view > 1 {
            Some(FormError::UnknownView)
        } else if !self.brush_width_is_number {
            Some(FormError::BrushWidth)
        } else {
            None
        }
    }

    /// Takes the fields over. Texts are trimmed but for the password, which may begin or end with
    /// a space; the color is written in lower case.
    pub fn read(self) -> (result: Result<FormValues, FormError>)
        ensures
            match self.error() {
                Some(error) => result == Err::<FormValues, FormError>(error),
                None => {
                    &&& result is Ok
                    &&& Some(result->Ok_0.port) == crate::settings::parsed_u16(
                        text::trimmed(self.port@),
                    )
                    &&& result->Ok_0.screen == self.screen
                    &&& result->Ok_0.projector_view@ == if self.view == 0 {
                        "program"@
                    } else {
                        "preview"@
                    }
                    &&& result->Ok_0.canvas_aspect@ == text::trimmed(self.canvas_aspect@)
                    &&& result->Ok_0.obs_websocket_url@ == text::trimmed(self.obs_websocket_url@)
                    &&& result->Ok_0.obs_websocket_password == self.obs_websocket_password
                    &&& result->Ok_0.brush_color@ == text::trimmed(self.brush_color@).map_values(
                        |c: char| text::ascii_lower(c),
                    )
                },
            },
    {
        let port: u16 = match parse_u16(text::trim(&self.port)) {
            Some(port) => port,
            None => {
                return Err(FormError::Port);
            },
        };
        let screen: usize = match selected_index(self.screen) {
            Some(screen) => screen,
            None => {
                return Err(FormError::NothingSelected);
            },
        };
        if screen >= self.monitor_count {
            return Err(FormError::UnknownMonitor);
        }
        let projector_view = match selected_index(self.view) {
            Some(0) => "program",
            Some(1) => "preview",
            Some(_) => {
                return Err(FormError::UnknownView);
            },
            None => {
                return Err(FormError::NothingSelected);
            },
        };
        if !self.brush_width_is_number {
            return Err(FormError::BrushWidth);
        }
        Ok(
            FormValues {
                port,
                screen,
                projector_view,
                canvas_aspect: text::trim(&self.canvas_aspect).to_owned(),
                obs_websocket_url: text::trim(&self.obs_websocket_url).to_owned(),
                brush_color: text::to_ascii_lowercase(text::trim(&self.brush_color)),
                obs_websocket_password: self.obs_websocket_password,
            },
        )
    }
}

/// Which view of the projector a configuration asks for: only its one word means the preview.
pub fn wants_preview(projector_view: &String) -> (preview: bool)
    ensures
        preview == (projector_view@ == "preview"@),
{
    *projector_view == "preview".to_owned()
}

/// The fields are taken over exactly where each is right: a number for the port, a monitor and a
/// view that exist, and a number for the width. Else the first that is wrong is told.
pub proof fn law_the_first_wrong_setting_is_told(fields: FormFields)
    ensures
        ({
            let port = crate::settings::parsed_u16(text::trimmed(fields.port@)) is Some;
            let screen = 0 <= fields.screen < fields.monitor_count;
            let view = fields.view == 0 || fields.view == 1;
            let error = fields.error();
            &&& error is None <==> port && screen && view && fields.brush_width_is_number
            &&& error == Some(FormError::Port) <==> !port
            &&& error == Some(FormError::NothingSelected) <==> port && (fields.screen < 0 || (screen
                && fields.view < 0))
            &&& error == Some(FormError::UnknownMonitor) <==> port && fields.screen
                >= fields.monitor_count && fields.screen >= 0
            &&& error == Some(FormError::UnknownView) <==> port && screen && fields.view > 1
            &&& error == Some(FormError::BrushWidth) <==> port && screen && view
                && !fields.brush_width_is_number
        }),
{
}

} // verus!
