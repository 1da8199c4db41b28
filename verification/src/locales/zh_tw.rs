//! Traditional Chinese strings.

use vstd::prelude::*;

use super::keys;
use crate::text::str_eq;
use super::en;

verus! {

/// The Traditional Chinese text for `key`.
/// Keys without an entry here fall back to the English text.
pub open spec fn text(key: Seq<char>) -> Seq<char> {
    if key == keys::TRAY_NEW_FENCE@ {
        "新建欄目"@
    } else if key == keys::TRAY_RELOAD@ {
        "重新載入"@
    } else if key == keys::TRAY_ANIM_FPS@ {
        "動畫幀率"@
    } else if key == keys::TRAY_DEFAULT_SETTINGS@ {
        "預設欄目設定"@
    } else if key == keys::TRAY_AUTOSTART@ {
        "開機自啟"@
    } else if key == keys::TRAY_EXIT@ {
        "退出"@
    } else if key == keys::TRAY_DEFAULT_BLUR_PROMPT@ {
        "預設模糊半徑 (0-150)"@
    } else if key == keys::FENCE_OPEN@ {
        "開啟"@
    } else if key == keys::FENCE_OPEN_LOCATION@ {
        "開啟檔案位置"@
    } else if key == keys::FENCE_REMOVE@ {
        "從欄目中移除"@
    } else if key == keys::FENCE_ROLL_UP@ {
        "收起"@
    } else if key == keys::FENCE_UNROLL@ {
        "展開"@
    } else if key == keys::FENCE_RENAME@ {
        "重新命名..."@
    } else if key == keys::FENCE_LOCK@ {
        "鎖定"@
    } else if key == keys::FENCE_UNLOCK@ {
        "解鎖"@
    } else if key == keys::FENCE_CUSTOMIZE@ {
        "自訂"@
    } else if key == keys::FENCE_DELETE@ {
        "刪除欄目"@
    } else if key == keys::FENCE_BLUR_PROMPT@ {
        "模糊半徑 (0-150)"@
    } else if key == keys::FENCE_RENAME_PROMPT@ {
        "重新命名欄目"@
    } else if key == keys::FPS_OFF@ {
        "關閉 (吸附)"@
    } else if key == keys::FPS_DEFAULT@ {
        "60 幀 (預設)"@
    } else if key == keys::CUSTOMIZE_BG_COLOR@ {
        "背景顏色"@
    } else if key == keys::CUSTOMIZE_BORDER_COLOR@ {
        "邊框顏色"@
    } else if key == keys::CUSTOMIZE_TITLE_COLOR@ {
        "標題顏色"@
    } else if key == keys::CUSTOMIZE_LABEL_COLOR@ {
        "標籤顏色"@
    } else if key == keys::CUSTOMIZE_BORDER_THICK@ {
        "邊框粗細"@
    } else if key == keys::CUSTOMIZE_ICON_SIZE@ {
        "圖示大小"@
    } else if key == keys::CUSTOMIZE_ICON_SPACING@ {
        "圖示間距"@
    } else if key == keys::CUSTOMIZE_BOLD_TITLE@ {
        "粗體標題"@
    } else if key == keys::CUSTOMIZE_SHOW_LABELS@ {
        "顯示標籤"@
    } else if key == keys::CUSTOMIZE_BG_BLUR@ {
        "背景模糊"@
    } else if key == keys::CUSTOMIZE_BLUR_RADIUS@ {
        "模糊半徑..."@
    } else if key == keys::CUSTOMIZE_BG_OPACITY@ {
        "背景不透明度"@
    } else if key == keys::CUSTOMIZE_TITLE_ALIGN@ {
        "標題對齊"@
    } else if key == keys::ALIGN_LEFT@ {
        "靠左"@
    } else if key == keys::ALIGN_CENTER@ {
        "置中"@
    } else if key == keys::ALIGN_RIGHT@ {
        "靠右"@
    } else if key == keys::COLOR_DEFAULT@ {
        "(預設)"@
    } else if key == keys::COLOR_RED@ {
        "紅色"@
    } else if key == keys::COLOR_GREEN@ {
        "綠色"@
    } else if key == keys::COLOR_BLUE@ {
        "藍色"@
    } else if key == keys::COLOR_TEAL@ {
        "青色"@
    } else if key == keys::COLOR_PURPLE@ {
        "紫色"@
    } else if key == keys::COLOR_ORANGE@ {
        "橙色"@
    } else if key == keys::COLOR_PINK@ {
        "粉色"@
    } else if key == keys::COLOR_YELLOW@ {
        "黃色"@
    } else if key == keys::COLOR_GRAY@ {
        "灰色"@
    } else if key == keys::COLOR_BLACK@ {
        "黑色"@
    } else if key == keys::COLOR_WHITE@ {
        "白色"@
    } else if key == keys::SIZE_TINY@ {
        "極小 (16)"@
    } else if key == keys::SIZE_SMALL@ {
        "小 (24)"@
    } else if key == keys::SIZE_MEDIUM@ {
        "中 (32)"@
    } else if key == keys::SIZE_LARGE@ {
        "大 (48)"@
    } else if key == keys::SIZE_HUGE@ {
        "超大 (64)"@
    } else if key == keys::OPACITY_TRANSPARENT@ {
        "0% (透明)"@
    } else if key == keys::OPACITY_DEFAULT@ {
        "45% (預設)"@
    } else if key == keys::OPACITY_SOLID@ {
        "100% (實心)"@
    } else if key == keys::MODAL_OK@ {
        "確定"@
    } else if key == keys::MODAL_CANCEL@ {
        "取消"@
    } else if key == keys::DELETE_TITLE@ {
        "刪除此欄目？"@
    } else if key == keys::DELETE_TITLE_NAMED@ {
        "刪除欄目\u{201c}{}\u{201d}？"@
    } else if key == keys::DELETE_DETAILS@ {
        "內容僅為捷徑 — 原始檔案保持不變。此操作無法在應用內撤銷。"@
    } else if key == keys::DELETE_CONFIRM@ {
        "刪除欄目"@
    } else if key == keys::NEW_FENCE_TITLE@ {
        "新建欄目 - 拖放捷徑到此處"@
    } else if key == keys::LANG_LABEL@ {
        "語言"@
    } else if key == keys::LANG_EN@ {
        "English"@
    } else if key == keys::LANG_ZH_CN@ {
        "简体中文"@
    } else if key == keys::LANG_ZH_TW@ {
        "繁體中文"@
    } else if key == keys::DROP_DESC_OPEN_WITH@ {
        "以 %1 開啟"@
    } else if key == keys::DROP_DESC_ADD_TO@ {
        "新增至 %1"@
    } else {
        en::text(key)
    }
}

/// Looks `key` up in the Traditional Chinese table.
#[verifier::rlimit(50)]
pub fn translate(key: &'static str) -> (r: &'static str)
    ensures
        r@ == text(key@),
{
    if str_eq(key, keys::TRAY_NEW_FENCE) {
        return "新建欄目";
    }
    if str_eq(key, keys::TRAY_RELOAD) {
        return "重新載入";
    }
    if str_eq(key, keys::TRAY_ANIM_FPS) {
        return "動畫幀率";
    }
    if str_eq(key, keys::TRAY_DEFAULT_SETTINGS) {
        return "預設欄目設定";
    }
    if str_eq(key, keys::TRAY_AUTOSTART) {
        return "開機自啟";
    }
    if str_eq(key, keys::TRAY_EXIT) {
        return "退出";
    }
    if str_eq(key, keys::TRAY_DEFAULT_BLUR_PROMPT) {
        return "預設模糊半徑 (0-150)";
    }
    if str_eq(key, keys::FENCE_OPEN) {
        return "開啟";
    }
    if str_eq(key, keys::FENCE_OPEN_LOCATION) {
        return "開啟檔案位置";
    }
    if str_eq(key, keys::FENCE_REMOVE) {
        return "從欄目中移除";
    }
    if str_eq(key, keys::FENCE_ROLL_UP) {
        return "收起";
    }
    if str_eq(key, keys::FENCE_UNROLL) {
        return "展開";
    }
    if str_eq(key, keys::FENCE_RENAME) {
        return "重新命名...";
    }
    if str_eq(key, keys::FENCE_LOCK) {
        return "鎖定";
    }
    if str_eq(key, keys::FENCE_UNLOCK) {
        return "解鎖";
    }
    if str_eq(key, keys::FENCE_CUSTOMIZE) {
        return "自訂";
    }
    if str_eq(key, keys::FENCE_DELETE) {
        return "刪除欄目";
    }
    if str_eq(key, keys::FENCE_BLUR_PROMPT) {
        return "模糊半徑 (0-150)";
    }
    if str_eq(key, keys::FENCE_RENAME_PROMPT) {
        return "重新命名欄目";
    }
    if str_eq(key, keys::FPS_OFF) {
        return "關閉 (吸附)";
    }
    if str_eq(key, keys::FPS_DEFAULT) {
        return "60 幀 (預設)";
    }
    if str_eq(key, keys::CUSTOMIZE_BG_COLOR) {
        return "背景顏色";
    }
    if str_eq(key, keys::CUSTOMIZE_BORDER_COLOR) {
        return "邊框顏色";
    }
    if str_eq(key, keys::CUSTOMIZE_TITLE_COLOR) {
        return "標題顏色";
    }
    if str_eq(key, keys::CUSTOMIZE_LABEL_COLOR) {
        return "標籤顏色";
    }
    if str_eq(key, keys::CUSTOMIZE_BORDER_THICK) {
        return "邊框粗細";
    }
    if str_eq(key, keys::CUSTOMIZE_ICON_SIZE) {
        return "圖示大小";
    }
    if str_eq(key, keys::CUSTOMIZE_ICON_SPACING) {
        return "圖示間距";
    }
    if str_eq(key, keys::CUSTOMIZE_BOLD_TITLE) {
        return "粗體標題";
    }
    if str_eq(key, keys::CUSTOMIZE_SHOW_LABELS) {
        return "顯示標籤";
    }
    if str_eq(key, keys::CUSTOMIZE_BG_BLUR) {
        return "背景模糊";
    }
    if str_eq(key, keys::CUSTOMIZE_BLUR_RADIUS) {
        return "模糊半徑...";
    }
    if str_eq(key, keys::CUSTOMIZE_BG_OPACITY) {
        return "背景不透明度";
    }
    if str_eq(key, keys::CUSTOMIZE_TITLE_ALIGN) {
        return "標題對齊";
    }
    if str_eq(key, keys::ALIGN_LEFT) {
        return "靠左";
    }
    if str_eq(key, keys::ALIGN_CENTER) {
        return "置中";
    }
    if str_eq(key, keys::ALIGN_RIGHT) {
        return "靠右";
    }
    if str_eq(key, keys::COLOR_DEFAULT) {
        return "(預設)";
    }
    if str_eq(key, keys::COLOR_RED) {
        return "紅色";
    }
    if str_eq(key, keys::COLOR_GREEN) {
        return "綠色";
    }
    if str_eq(key, keys::COLOR_BLUE) {
        return "藍色";
    }
    if str_eq(key, keys::COLOR_TEAL) {
        return "青色";
    }
    if str_eq(key, keys::COLOR_PURPLE) {
        return "紫色";
    }
    if str_eq(key, keys::COLOR_ORANGE) {
        return "橙色";
    }
    if str_eq(key, keys::COLOR_PINK) {
        return "粉色";
    }
    if str_eq(key, keys::COLOR_YELLOW) {
        return "黃色";
    }
    if str_eq(key, keys::COLOR_GRAY) {
        return "灰色";
    }
    if str_eq(key, keys::COLOR_BLACK) {
        return "黑色";
    }
    if str_eq(key, keys::COLOR_WHITE) {
        return "白色";
    }
    if str_eq(key, keys::SIZE_TINY) {
        return "極小 (16)";
    }
    if str_eq(key, keys::SIZE_SMALL) {
        return "小 (24)";
    }
    if str_eq(key, keys::SIZE_MEDIUM) {
        return "中 (32)";
    }
    if str_eq(key, keys::SIZE_LARGE) {
        return "大 (48)";
    }
    if str_eq(key, keys::SIZE_HUGE) {
        return "超大 (64)";
    }
    if str_eq(key, keys::OPACITY_TRANSPARENT) {
        return "0% (透明)";
    }
    if str_eq(key, keys::OPACITY_DEFAULT) {
        return "45% (預設)";
    }
    if str_eq(key, keys::OPACITY_SOLID) {
        return "100% (實心)";
    }
    if str_eq(key, keys::MODAL_OK) {
        return "確定";
    }
    if str_eq(key, keys::MODAL_CANCEL) {
        return "取消";
    }
    if str_eq(key, keys::DELETE_TITLE) {
        return "刪除此欄目？";
    }
    if str_eq(key, keys::DELETE_TITLE_NAMED) {
        return "刪除欄目\u{201c}{}\u{201d}？";
    }
    if str_eq(key, keys::DELETE_DETAILS) {
        return "內容僅為捷徑 — 原始檔案保持不變。此操作無法在應用內撤銷。";
    }
    if str_eq(key, keys::DELETE_CONFIRM) {
        return "刪除欄目";
    }
    if str_eq(key, keys::NEW_FENCE_TITLE) {
        return "新建欄目 - 拖放捷徑到此處";
    }
    if str_eq(key, keys::LANG_LABEL) {
        return "語言";
    }
    if str_eq(key, keys::LANG_EN) {
        return "English";
    }
    if str_eq(key, keys::LANG_ZH_CN) {
        return "简体中文";
    }
    if str_eq(key, keys::LANG_ZH_TW) {
        return "繁體中文";
    }
    if str_eq(key, keys::DROP_DESC_OPEN_WITH) {
        return "以 %1 開啟";
    }
    if str_eq(key, keys::DROP_DESC_ADD_TO) {
        return "新增至 %1";
    }
    en::translate(key)
}

} // verus!
