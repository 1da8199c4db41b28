//! Simplified Chinese strings.

use vstd::prelude::*;

use super::keys;
use crate::text::str_eq;
use super::en;

verus! {

/// The Simplified Chinese text for `key`.
/// Keys without an entry here fall back to the English text.
pub open spec fn text(key: Seq<char>) -> Seq<char> {
    if key == keys::TRAY_NEW_FENCE@ {
        "新建栏目"@
    } else if key == keys::TRAY_RELOAD@ {
        "重新加载"@
    } else if key == keys::TRAY_ANIM_FPS@ {
        "动画帧率"@
    } else if key == keys::TRAY_DEFAULT_SETTINGS@ {
        "默认栏目设置"@
    } else if key == keys::TRAY_EXIT@ {
        "退出"@
    } else if key == keys::TRAY_DEFAULT_BLUR_PROMPT@ {
        "默认模糊半径 (0-150)"@
    } else if key == keys::FENCE_OPEN@ {
        "打开"@
    } else if key == keys::FENCE_OPEN_LOCATION@ {
        "打开文件位置"@
    } else if key == keys::FENCE_REMOVE@ {
        "从栏目中移除"@
    } else if key == keys::FENCE_ROLL_UP@ {
        "收起"@
    } else if key == keys::FENCE_UNROLL@ {
        "展开"@
    } else if key == keys::FENCE_RENAME@ {
        "重命名..."@
    } else if key == keys::FENCE_LOCK@ {
        "锁定"@
    } else if key == keys::FENCE_UNLOCK@ {
        "解锁"@
    } else if key == keys::FENCE_CUSTOMIZE@ {
        "自定义"@
    } else if key == keys::FENCE_DELETE@ {
        "删除栏目"@
    } else if key == keys::FENCE_BLUR_PROMPT@ {
        "模糊半径 (0-150)"@
    } else if key == keys::FENCE_RENAME_PROMPT@ {
        "重命名栏目"@
    } else if key == keys::FPS_OFF@ {
        "关闭 (吸附)"@
    } else if key == keys::FPS_DEFAULT@ {
        "60 帧 (默认)"@
    } else if key == keys::CUSTOMIZE_BG_COLOR@ {
        "背景颜色"@
    } else if key == keys::CUSTOMIZE_BORDER_COLOR@ {
        "边框颜色"@
    } else if key == keys::CUSTOMIZE_TITLE_COLOR@ {
        "标题颜色"@
    } else if key == keys::CUSTOMIZE_LABEL_COLOR@ {
        "标签颜色"@
    } else if key == keys::CUSTOMIZE_BORDER_THICK@ {
        "边框粗细"@
    } else if key == keys::CUSTOMIZE_ICON_SIZE@ {
        "图标大小"@
    } else if key == keys::CUSTOMIZE_ICON_SPACING@ {
        "图标间距"@
    } else if key == keys::CUSTOMIZE_BOLD_TITLE@ {
        "粗体标题"@
    } else if key == keys::CUSTOMIZE_SHOW_LABELS@ {
        "显示标签"@
    } else if key == keys::CUSTOMIZE_BG_BLUR@ {
        "背景模糊"@
    } else if key == keys::CUSTOMIZE_BLUR_RADIUS@ {
        "模糊半径..."@
    } else if key == keys::CUSTOMIZE_BG_OPACITY@ {
        "背景不透明度"@
    } else if key == keys::COLOR_DEFAULT@ {
        "(默认)"@
    } else if key == keys::COLOR_RED@ {
        "红色"@
    } else if key == keys::COLOR_GREEN@ {
        "绿色"@
    } else if key == keys::COLOR_BLUE@ {
        "蓝色"@
    } else if key == keys::COLOR_TEAL@ {
        "青色"@
    } else if key == keys::COLOR_PURPLE@ {
        "紫色"@
    } else if key == keys::COLOR_ORANGE@ {
        "橙色"@
    } else if key == keys::COLOR_PINK@ {
        "粉色"@
    } else if key == keys::COLOR_YELLOW@ {
        "黄色"@
    } else if key == keys::COLOR_GRAY@ {
        "灰色"@
    } else if key == keys::COLOR_BLACK@ {
        "黑色"@
    } else if key == keys::COLOR_WHITE@ {
        "白色"@
    } else if key == keys::SIZE_TINY@ {
        "极小 (16)"@
    } else if key == keys::SIZE_SMALL@ {
        "小 (24)"@
    } else if key == keys::SIZE_MEDIUM@ {
        "中 (32)"@
    } else if key == keys::SIZE_LARGE@ {
        "大 (48)"@
    } else if key == keys::SIZE_HUGE@ {
        "超大 (64)"@
    } else if key == keys::OPACITY_TRANSPARENT@ {
        "0% (透明)"@
    } else if key == keys::OPACITY_DEFAULT@ {
        "45% (默认)"@
    } else if key == keys::OPACITY_SOLID@ {
        "100% (实心)"@
    } else if key == keys::MODAL_OK@ {
        "确定"@
    } else if key == keys::MODAL_CANCEL@ {
        "取消"@
    } else if key == keys::DELETE_TITLE@ {
        "删除此栏目？"@
    } else if key == keys::DELETE_TITLE_NAMED@ {
        "删除栏目\u{201c}{}\u{201d}？"@
    } else if key == keys::DELETE_DETAILS@ {
        "内容仅为快捷方式 — 原始文件保持不变。此操作无法在应用内撤销。"@
    } else if key == keys::DELETE_CONFIRM@ {
        "删除栏目"@
    } else if key == keys::NEW_FENCE_TITLE@ {
        "新建栏目 - 拖放快捷方式到此处"@
    } else if key == keys::LANG_LABEL@ {
        "语言"@
    } else if key == keys::LANG_EN@ {
        "English"@
    } else if key == keys::LANG_ZH_CN@ {
        "简体中文"@
    } else if key == keys::LANG_ZH_TW@ {
        "繁體中文"@
    } else {
        en::text(key)
    }
}

/// Looks `key` up in the Simplified Chinese table.
#[verifier::rlimit(50)]
pub fn translate(key: &'static str) -> (r: &'static str)
    ensures
        r@ == text(key@),
{
    if str_eq(key, keys::TRAY_NEW_FENCE) {
        return "新建栏目";
    }
    if str_eq(key, keys::TRAY_RELOAD) {
        return "重新加载";
    }
    if str_eq(key, keys::TRAY_ANIM_FPS) {
        return "动画帧率";
    }
    if str_eq(key, keys::TRAY_DEFAULT_SETTINGS) {
        return "默认栏目设置";
    }
    if str_eq(key, keys::TRAY_EXIT) {
        return "退出";
    }
    if str_eq(key, keys::TRAY_DEFAULT_BLUR_PROMPT) {
        return "默认模糊半径 (0-150)";
    }
    if str_eq(key, keys::FENCE_OPEN) {
        return "打开";
    }
    if str_eq(key, keys::FENCE_OPEN_LOCATION) {
        return "打开文件位置";
    }
    if str_eq(key, keys::FENCE_REMOVE) {
        return "从栏目中移除";
    }
    if str_eq(key, keys::FENCE_ROLL_UP) {
        return "收起";
    }
    if str_eq(key, keys::FENCE_UNROLL) {
        return "展开";
    }
    if str_eq(key, keys::FENCE_RENAME) {
        return "重命名...";
    }
    if str_eq(key, keys::FENCE_LOCK) {
        return "锁定";
    }
    if str_eq(key, keys::FENCE_UNLOCK) {
        return "解锁";
    }
    if str_eq(key, keys::FENCE_CUSTOMIZE) {
        return "自定义";
    }
    if str_eq(key, keys::FENCE_DELETE) {
        return "删除栏目";
    }
    if str_eq(key, keys::FENCE_BLUR_PROMPT) {
        return "模糊半径 (0-150)";
    }
    if str_eq(key, keys::FENCE_RENAME_PROMPT) {
        return "重命名栏目";
    }
    if str_eq(key, keys::FPS_OFF) {
        return "关闭 (吸附)";
    }
    if str_eq(key, keys::FPS_DEFAULT) {
        return "60 帧 (默认)";
    }
    if str_eq(key, keys::CUSTOMIZE_BG_COLOR) {
        return "背景颜色";
    }
    if str_eq(key, keys::CUSTOMIZE_BORDER_COLOR) {
        return "边框颜色";
    }
    if str_eq(key, keys::CUSTOMIZE_TITLE_COLOR) {
        return "标题颜色";
    }
    if str_eq(key, keys::CUSTOMIZE_LABEL_COLOR) {
        return "标签颜色";
    }
    if str_eq(key, keys::CUSTOMIZE_BORDER_THICK) {
        return "边框粗细";
    }
    if str_eq(key, keys::CUSTOMIZE_ICON_SIZE) {
        return "图标大小";
    }
    if str_eq(key, keys::CUSTOMIZE_ICON_SPACING) {
        return "图标间距";
    }
    if str_eq(key, keys::CUSTOMIZE_BOLD_TITLE) {
        return "粗体标题";
    }
    if str_eq(key, keys::CUSTOMIZE_SHOW_LABELS) {
        return "显示标签";
    }
    if str_eq(key, keys::CUSTOMIZE_BG_BLUR) {
        return "背景模糊";
    }
    if str_eq(key, keys::CUSTOMIZE_BLUR_RADIUS) {
        return "模糊半径...";
    }
    if str_eq(key, keys::CUSTOMIZE_BG_OPACITY) {
        return "背景不透明度";
    }
    if str_eq(key, keys::COLOR_DEFAULT) {
        return "(默认)";
    }
    if str_eq(key, keys::COLOR_RED) {
        return "红色";
    }
    if str_eq(key, keys::COLOR_GREEN) {
        return "绿色";
    }
    if str_eq(key, keys::COLOR_BLUE) {
        return "蓝色";
    }
    if str_eq(key, keys::COLOR_TEAL) {
        return "青色";
    }
    if str_eq(key, keys::COLOR_PURPLE) {
        return "紫色";
    }
    if str_eq(key, keys::COLOR_ORANGE) {
        return "橙色";
    }
    if str_eq(key, keys::COLOR_PINK) {
        return "粉色";
    }
    if str_eq(key, keys::COLOR_YELLOW) {
        return "黄色";
    }
    if str_eq(key, keys::COLOR_GRAY) {
        return "灰色";
    }
    if str_eq(key, keys::COLOR_BLACK) {
        return "黑色";
    }
    if str_eq(key, keys::COLOR_WHITE) {
        return "白色";
    }
    if str_eq(key, keys::SIZE_TINY) {
        return "极小 (16)";
    }
    if str_eq(key, keys::SIZE_SMALL) {
        return "小 (24)";
    }
    if str_eq(key, keys::SIZE_MEDIUM) {
        return "中 (32)";
    }
    if str_eq(key, keys::SIZE_LARGE) {
        return "大 (48)";
    }
    if str_eq(key, keys::SIZE_HUGE) {
        return "超大 (64)";
    }
    if str_eq(key, keys::OPACITY_TRANSPARENT) {
        return "0% (透明)";
    }
    if str_eq(key, keys::OPACITY_DEFAULT) {
        return "45% (默认)";
    }
    if str_eq(key, keys::OPACITY_SOLID) {
        return "100% (实心)";
    }
    if str_eq(key, keys::MODAL_OK) {
        return "确定";
    }
    if str_eq(key, keys::MODAL_CANCEL) {
        return "取消";
    }
    if str_eq(key, keys::DELETE_TITLE) {
        return "删除此栏目？";
    }
    if str_eq(key, keys::DELETE_TITLE_NAMED) {
        return "删除栏目\u{201c}{}\u{201d}？";
    }
    if str_eq(key, keys::DELETE_DETAILS) {
        return "内容仅为快捷方式 — 原始文件保持不变。此操作无法在应用内撤销。";
    }
    if str_eq(key, keys::DELETE_CONFIRM) {
        return "删除栏目";
    }
    if str_eq(key, keys::NEW_FENCE_TITLE) {
        return "新建栏目 - 拖放快捷方式到此处";
    }
    if str_eq(key, keys::LANG_LABEL) {
        return "语言";
    }
    if str_eq(key, keys::LANG_EN) {
        return "English";
    }
    if str_eq(key, keys::LANG_ZH_CN) {
        return "简体中文";
    }
    if str_eq(key, keys::LANG_ZH_TW) {
        return "繁體中文";
    }
    en::translate(key)
}

} // verus!
